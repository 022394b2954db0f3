use lyrfin::atomicfile::tmp_path;
use std::path::PathBuf;

#[test]
fn the_temp_file_never_collides_between_siblings() {
    let a = PathBuf::from(tmp_path("/x/store.json"));
    let b = PathBuf::from(tmp_path("/x/store.bin"));
    assert_ne!(a, b);
    assert_eq!(a, PathBuf::from("/x/store.json.tmp"));
}
