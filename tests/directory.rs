use wallhaven_picker::directory::{DirectoryError, DirectoryStore, DiskRead};
use wallhaven_picker::download::{image_file_name, image_file_path};

#[test]
fn download_path_joins_directory_and_file_name() {
    assert_eq!(image_file_path("/tmp/out", "https://host/dir/file123.jpg"), "/tmp/out/file123.jpg");
    let mut store = DirectoryStore::new();
    store.set_directory("/tmp/out".to_string());
    assert_eq!(store.download_path("https://host/dir/file123.jpg"), "/tmp/out/file123.jpg");
}

#[test]
fn download_path_without_directory() {
    let store = DirectoryStore::new();
    assert_eq!(store.download_path("https://host/a.png"), "/a.png");
}

#[test]
fn file_name_is_last_segment() {
    assert_eq!(image_file_name("https://host/dir/file123.jpg"), "file123.jpg");
    assert_eq!(image_file_name("plain.jpg"), "plain.jpg");
    assert_eq!(image_file_name("https://host/dir/"), "");
    assert_eq!(image_file_name(""), "");
}

#[test]
fn set_then_get_uses_memory() {
    let mut store = DirectoryStore::new();
    assert_eq!(store.get_directory(), None);
    store.set_directory("/a/b".to_string());
    assert_eq!(store.get_directory(), Some("/a/b".to_string()));
    store.set_directory("/c".to_string());
    assert_eq!(store.get_directory(), Some("/c".to_string()));
}

#[test]
fn missing_file_is_not_configured() {
    let mut store = DirectoryStore::new();
    assert_eq!(store.load_directory(DiskRead::Missing), Err(DirectoryError::NotConfigured));
    assert_eq!(store.get_directory(), None);
    assert_eq!(store.load_directory(DiskRead::Failed), Err(DirectoryError::Io));
}

#[test]
fn loaded_directory_is_cached() {
    let mut store = DirectoryStore::new();
    assert_eq!(store.load_directory(DiskRead::Found("/pics".to_string())), Ok("/pics".to_string()));
    assert_eq!(store.get_directory(), Some("/pics".to_string()));
}
