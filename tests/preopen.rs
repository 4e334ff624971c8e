use wasix_env::error::WasiStateCreationError;
use wasix_env::preopen::validate_mapped_dir_alias;
use wasix_env::PreopenDirBuilder;

#[test]
fn no_permission_is_refused() {
    let mut p = PreopenDirBuilder::new();
    p.directory("/tmp");
    assert_eq!(
        p.build().unwrap_err(),
        WasiStateCreationError::PreopenedDirectoryError(
            "Preopened directories must have at least one of read, write, create permissions set"
                .to_string()
        )
    );
}

#[test]
fn create_implies_write() {
    let mut p = PreopenDirBuilder::new();
    p.directory("/tmp").create(true);
    let d = p.build().unwrap();
    assert!(d.create && d.write && !d.read);
}

#[test]
fn missing_path_is_refused() {
    let mut p = PreopenDirBuilder::new();
    p.read(true);
    assert_eq!(
        p.build().unwrap_err(),
        WasiStateCreationError::PreopenedDirectoryError(
            "Preopened directories must point to a host directory".to_string()
        )
    );
}

#[test]
fn alias_loses_leading_slashes() {
    let mut p = PreopenDirBuilder::new();
    p.directory("/host").alias("///guest/dir").write(true);
    let d = p.build().unwrap();
    assert_eq!(d.alias, Some("guest/dir".to_string()));
    assert_eq!(d.path, "/host");
}

#[test]
fn alias_with_nul_is_refused() {
    assert_eq!(validate_mapped_dir_alias("ok"), Ok(()));
    assert_eq!(
        validate_mapped_dir_alias("b\0ad"),
        Err(WasiStateCreationError::MappedDirAliasFormattingError(
            "Alias \"b\0ad\" contains a nul byte".to_string()
        ))
    );
}
