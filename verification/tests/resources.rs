use engine::resources::{resource_name_to_path, Error, Resources};

#[test]
fn resource_names_join_onto_the_root() {
    assert_eq!(resource_name_to_path("assets", "models/box.gltf"), "assets/models/box.gltf");
    assert_eq!(resource_name_to_path("assets", "a.txt"), "assets/a.txt");
    let res = Resources::from_path("root");
    assert_eq!(res.resource_path("x/y/z"), "root/x/y/z");
    assert_eq!(res.root_path(), "root");
}

#[test]
fn extend_file_root_takes_the_directory_of_the_resource() {
    let res = Resources::new(String::from("assets"));
    let sub = res.extend_file_root("models/box.gltf").unwrap();
    assert_eq!(sub.root_path(), "assets/models");
    assert_eq!(sub.resource_path("box.bin"), "assets/models/box.bin");
}

#[test]
fn extend_file_root_of_the_root_itself_has_no_parent() {
    let res = Resources::from_path("/");
    assert!(res.extend_file_root("").is_none());
}

#[test]
fn files_are_read_at_their_resource_path() {
    let res = Resources::from_path("assets");
    let got = res.load_bytes("dir/file.bin", |p: &str| {
        assert_eq!(p, "assets/dir/file.bin");
        Ok(vec![1, 2, 3])
    });
    assert_eq!(got.unwrap(), vec![1, 2, 3]);
}

#[test]
fn file_errors_are_io_errors() {
    let res = Resources::from_path("assets");
    let got = res.load_bytes("missing", |_p: &str| {
        Err(std::io::Error::new(std::io::ErrorKind::NotFound, "missing"))
    });
    assert!(matches!(got, Err(Error::Io(_))));
}

#[test]
fn data_uris_are_read_in_place() {
    let res = Resources::from_path("assets");
    let got = res.load_bytes("data:;base64,AAEC", |_p: &str| -> Result<Vec<u8>, std::io::Error> {
        panic!("a data uri is not a file")
    });
    assert_eq!(got.unwrap(), vec![0, 1, 2]);
}

#[test]
fn bad_data_uris_are_data_uri_errors() {
    let res = Resources::from_path("assets");
    let got = res.load_bytes("data:text/plain", |_p: &str| Ok(vec![]));
    assert!(matches!(got, Err(Error::DataUri(_))));
}

#[test]
fn strings_from_data_uris_must_be_utf8() {
    let res = Resources::from_path("assets");
    let ok = res.load_string("data:,hello", |_p: &str| Ok(String::new()));
    assert_eq!(ok.unwrap(), "hello");
    let bad = res.load_string("data:;base64,/w==", |_p: &str| Ok(String::new()));
    assert!(matches!(bad, Err(Error::UTF8(_))));
}

#[test]
fn strings_from_files() {
    let res = Resources::from_path("r");
    let got = res.load_string("a/b.txt", |p: &str| Ok(format!("read {}", p)));
    assert_eq!(got.unwrap(), "read r/a/b.txt");
}

#[test]
fn c_strings_refuse_nul_bytes() {
    let res = Resources::from_path("r");
    let bad = res.load_cstring("shader.vert", |_p: &str| Ok(vec![b'a', 0, b'b']));
    assert!(matches!(bad, Err(Error::FileContainsNil)));
    let ok = res.load_cstring("shader.vert", |_p: &str| Ok(b"void main() {}".to_vec()));
    assert_eq!(ok.unwrap(), b"void main() {}".to_vec());
}

#[test]
fn resource_error_messages() {
    assert_eq!(Error::FileContainsNil.message(), "File loaded contains null byte");
    assert_eq!(Error::Parent.message(), "Failed to get path's parent");
    assert_eq!(
        Error::DataUri(engine::data_uri::Error::GetHeader).message(),
        "Data Uri error: Unable to get header"
    );
    let io = Error::Io(std::io::Error::new(std::io::ErrorKind::Other, "gone"));
    assert_eq!(io.message(), "File system error: gone");
}
