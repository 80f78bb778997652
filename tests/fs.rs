use tempfile::{Builder, TempDir};

type Result<T> = core::result::Result<T, Box<dyn std::error::Error>>;

/// Just a syntax check and familiarization test for working with tempdir and fs asserts.
#[test]
fn xp_test_fs() -> Result<()> {
    let dir_root = TempDir::new()?;

    println!("testing\na\nb\nc\nd\ntesting\n");

    println!("temp: {:?}", dir_root);
    let nf_0d = Builder::new().prefix("new_file_0d").suffix(".txt").rand_bytes(0).tempfile_in(dir_root.path())?;
    println!("temp: {:?}", dir_root);
    println!("new_file_0d: {:?}", nf_0d);

    assert!(!dir_root.path().join("blahblahblah").exists());
    assert!(dir_root.path().join("new_file_0d.txt").exists());

    drop(nf_0d);
    dir_root.close()?;
    Ok(())
}
