use qingjian_windows::tsf::launch::server_path;

#[test]
fn a_root_has_no_directory_for_the_server() {
    assert_eq!(server_path("/"), Err("DLL 路径没有上级目录".to_owned()));
}

#[test]
fn a_missing_server_is_reported_with_its_path() {
    let dir = std::path::Path::new("/qingjian-no-such-dir");
    let module = dir.join("qingjian_tsf.dll");
    let expected = dir.join("qingjian-server.exe").display().to_string();
    assert_eq!(
        server_path(module.to_str().unwrap()),
        Err(format!("{expected} 不在"))
    );
}
