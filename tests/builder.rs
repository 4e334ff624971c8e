use wasix_env::capabilities::{Capabilities, ThreadingCapabilities};
use wasix_env::env::{BinaryPackage, RuntimeHandle, WasiEnv};
use wasix_env::error::{FsError, WasiRuntimeError, WasiStateCreationError};
use wasix_env::fs::{BackingFs, MemoryLimiter, VirtualFile, WasiFsRoot};
use wasix_env::WasiEnvBuilder;

#[test]
fn env_var_errors() {
    // `=` in the key is invalid.
    assert!(
        WasiEnv::builder("test_prog")
            .env("HOM=E", "/home/home".as_bytes())
            .build_init()
            .is_err(),
        "equal sign in key must be invalid"
    );

    // `\0` in the key is invalid.
    assert!(
        WasiEnvBuilder::new("test_prog")
            .env("HOME\0", "/home/home".as_bytes())
            .build_init()
            .is_err(),
        "nul in key must be invalid"
    );

    // `=` in the value is valid.
    assert!(
        WasiEnvBuilder::new("test_prog")
            .env("HOME", "/home/home=home".as_bytes())
            .build_init()
            .is_ok(),
        "equal sign in the value must be valid"
    );

    // `\0` in the value is invalid.
    assert!(
        WasiEnvBuilder::new("test_prog")
            .env("HOME", "/home/home\0".as_bytes())
            .build_init()
            .is_err(),
        "nul in value must be invalid"
    );
}

#[test]
fn nul_character_in_args() {
    let output = WasiEnvBuilder::new("test_prog").arg("--h\0elp").build_init();
    let err = output.expect_err("should fail");
    assert!(matches!(
        err,
        WasiStateCreationError::ArgumentContainsNulByte(_)
    ));

    let output = WasiEnvBuilder::new("test_prog")
        .args(&["--help", "--wat\0"])
        .build_init();
    let err = output.expect_err("should fail");
    assert!(matches!(
        err,
        WasiStateCreationError::ArgumentContainsNulByte(_)
    ));
}

#[test]
fn env_error_messages_name_the_fault() {
    let err = WasiEnvBuilder::new("p")
        .env("A\0=B", "v".as_bytes())
        .build_init()
        .unwrap_err();
    assert_eq!(
        err,
        WasiStateCreationError::EnvironmentVariableFormatError(
            "found nul byte in env var key \"A\0=B\" (key=value)".to_string()
        )
    );
    let err = WasiEnvBuilder::new("p")
        .env("A=\0B", "v".as_bytes())
        .build_init()
        .unwrap_err();
    assert_eq!(
        err,
        WasiStateCreationError::EnvironmentVariableFormatError(
            "found equal sign in env var key \"A=\0B\" (key=value)".to_string()
        )
    );
    let err = WasiEnvBuilder::new("p")
        .env("HOME", &[b'a', 0, 0xff])
        .build_init()
        .unwrap_err();
    assert_eq!(
        err,
        WasiStateCreationError::EnvironmentVariableFormatError(
            "found nul byte in env var value \"a\0\u{fffd}\" (key=value)".to_string()
        )
    );
}

#[test]
fn argument_error_keeps_the_argument() {
    let err = WasiEnvBuilder::new("p")
        .args(&["ok", "b\0ad", "w\0rse"])
        .env("K=", "v".as_bytes())
        .build_init()
        .unwrap_err();
    assert_eq!(
        err,
        WasiStateCreationError::ArgumentContainsNulByte("b\0ad".to_string())
    );
}

#[test]
fn round_trip_arguments_and_no_environment() {
    let init = WasiEnvBuilder::new("prog").arg("--flag").build_init().unwrap();
    assert_eq!(init.state.args, vec!["prog".to_string(), "--flag".to_string()]);
    assert!(init.state.envs.is_empty());
    assert!(init.state.futexs.is_empty());
    assert_eq!(init.state.clock_offset, 0);
    assert!(init.call_initialize);
    assert!(!init.can_deep_sleep);
    assert_eq!(init.runtime, RuntimeHandle::SharedDefault);
}

#[test]
fn environment_strings_are_key_equals_value() {
    let init = WasiEnvBuilder::new("prog")
        .envs(&[("A", "1".as_bytes()), ("B", "x=y".as_bytes())])
        .env("A", "2".as_bytes())
        .build_init()
        .unwrap();
    assert_eq!(
        init.state.envs,
        vec![b"A=1".to_vec(), b"B=x=y".to_vec(), b"A=2".to_vec()]
    );
}

#[test]
fn default_backing_is_a_sandbox() {
    let mut init = WasiEnvBuilder::new("prog").build_init().unwrap();
    assert!(matches!(init.state.fs.root, WasiFsRoot::Sandbox(_)));
    let limiter = MemoryLimiter { max_bytes: 1 << 20 };
    assert_eq!(init.state.fs.set_memory_limiter(limiter), Ok(()));
    match init.state.fs.root {
        WasiFsRoot::Sandbox(tmp) => assert_eq!(tmp.memory_limiter, Some(limiter)),
        WasiFsRoot::Backing(_) => panic!("expected a sandbox"),
    }
}

#[test]
fn external_backing_refuses_a_memory_limiter() {
    let mut init = WasiEnvBuilder::new("prog")
        .fs(BackingFs { id: 9 })
        .build_init()
        .unwrap();
    assert_eq!(init.state.fs.root, WasiFsRoot::Backing(BackingFs { id: 9 }));
    assert_eq!(
        init.state.fs.set_memory_limiter(MemoryLimiter { max_bytes: 10 }),
        Err(FsError::BadRequest)
    );
}

#[test]
fn later_backing_choice_wins() {
    let init = WasiEnvBuilder::new("prog")
        .fs(BackingFs { id: 1 })
        .sandbox_fs(wasix_env::TmpFileSystem::new())
        .build_init()
        .unwrap();
    assert!(matches!(init.state.fs.root, WasiFsRoot::Sandbox(_)));
}

#[test]
fn standard_descriptors_are_bound() {
    let init = WasiEnvBuilder::new("prog").build_init().unwrap();
    assert_eq!(init.state.fs.stdin, VirtualFile::ConsoleStdin);
    assert_eq!(init.state.fs.stdout, VirtualFile::ConsoleStdout);
    assert_eq!(init.state.fs.stderr, VirtualFile::ConsoleStderr);

    let mut b = WasiEnvBuilder::new("prog");
    b.set_stdin(VirtualFile::Host(1));
    let init = b
        .stdout(VirtualFile::Host(2))
        .stdout(VirtualFile::Host(3))
        .stderr(VirtualFile::Host(4))
        .build_init()
        .unwrap();
    assert_eq!(init.state.fs.stdin, VirtualFile::Host(1));
    assert_eq!(init.state.fs.stdout, VirtualFile::Host(3));
    assert_eq!(init.state.fs.stderr, VirtualFile::Host(4));
}

#[test]
fn clashing_guest_names_are_refused() {
    let err = WasiEnvBuilder::new("prog")
        .map_dir("data", "/a")
        .unwrap()
        .map_dir("/data", "/b")
        .unwrap()
        .build_init()
        .unwrap_err();
    assert_eq!(
        err,
        WasiStateCreationError::WasiFsCreationError(
            "two preopened directories share the guest name \"data\"".to_string()
        )
    );
    assert!(WasiEnvBuilder::new("prog")
        .preopen_dir("/")
        .unwrap()
        .map_dir(".", "/")
        .unwrap()
        .build_init()
        .is_ok());
}

#[test]
fn preopen_dir_needs_a_path() {
    let err = WasiEnvBuilder::new("prog").preopen_dir("").unwrap_err();
    assert_eq!(
        err,
        WasiStateCreationError::PreopenedDirectoryError(
            "Preopened directories must point to a host directory".to_string()
        )
    );
    let b = WasiEnvBuilder::new("prog").preopen_dirs(&["a", "b"]).unwrap();
    assert_eq!(b.preopens.len(), 2);
    assert_eq!(b.preopens[1].path, "b");
    assert!(b.preopens[1].read && b.preopens[1].write && b.preopens[1].create);
    assert!(WasiEnvBuilder::new("prog").preopen_dirs(&["a", ""]).is_err());
}

#[test]
fn map_dir_alias_rules() {
    let b = WasiEnvBuilder::new("prog").map_dirs(&[("//dot", "."), ("x", "/x")]).unwrap();
    assert_eq!(b.preopens[0].alias, Some("dot".to_string()));
    assert_eq!(b.preopens[1].alias, Some("x".to_string()));
    let mut b = WasiEnvBuilder::new("prog");
    assert_eq!(
        b.add_map_dir("a\0b", "/tmp"),
        Err(WasiStateCreationError::MappedDirAliasFormattingError(
            "Alias \"a\0b\" contains a nul byte".to_string()
        ))
    );
    assert!(b.preopens.is_empty());
}

#[test]
fn preopen_build_uses_the_configured_directory() {
    let b = WasiEnvBuilder::new("prog")
        .preopen_build(|mut p| {
            p.directory("src").read(true);
            p
        })
        .unwrap();
    assert_eq!(b.preopens[0].path, "src");
    assert!(b.preopens[0].read && !b.preopens[0].write);
    let err = WasiEnvBuilder::new("prog").preopen_build(|p| p).unwrap_err();
    assert!(matches!(err, WasiStateCreationError::PreopenedDirectoryError(_)));
}

#[test]
fn vfs_preopens_are_kept() {
    let mut b = WasiEnvBuilder::new("prog");
    b.preopen_vfs_dirs(vec!["/bin".to_string(), "/lib".to_string()]).unwrap();
    let init = b.build_init().unwrap();
    assert_eq!(init.state.preopen, vec!["/bin".to_string(), "/lib".to_string()]);
    assert_eq!(init.state.fs.vfs_preopens, vec!["/bin".to_string(), "/lib".to_string()]);
}

#[test]
fn packages_commands_and_runtime_are_carried() {
    let init = WasiEnvBuilder::new("prog")
        .use_webc(BinaryPackage { id: "a/one".to_string() })
        .uses(vec![BinaryPackage { id: "b/two".to_string() }])
        .map_command("ls", "/bin/ls")
        .map_commands(&[("cat", "/bin/cat")])
        .runtime(RuntimeHandle::Custom(5))
        .build_init()
        .unwrap();
    assert_eq!(init.webc_dependencies.len(), 2);
    assert_eq!(init.webc_dependencies[1].id, "b/two");
    assert_eq!(init.mapped_commands.len(), 2);
    assert_eq!(init.runtime, RuntimeHandle::Custom(5));
}

#[test]
fn control_plane_is_sized_from_capabilities() {
    let caps = Capabilities {
        threading: ThreadingCapabilities {
            max_threads: Some(3),
            enable_asynchronous_threading: true,
        },
    };
    let init = WasiEnvBuilder::new("prog").capabilities(caps).build_init().unwrap();
    assert_eq!(init.control_plane.config.max_task_count, Some(3));
    assert!(init.control_plane.config.enable_asynchronous_threading);
    assert_eq!(init.control_plane.task_count, 0);
    let env = WasiEnvBuilder::new("prog").capabilities(caps).build().unwrap();
    assert_eq!(env.init.control_plane.task_count, 1);
}

#[test]
fn build_fails_when_no_task_fits() {
    let mut b = WasiEnvBuilder::new("prog");
    b.capabilities_mut().threading.max_threads = Some(0);
    let err = b.build().unwrap_err();
    assert!(matches!(err, WasiRuntimeError::ControlPlane(_)));
    let err = WasiEnvBuilder::new("p\0").build().unwrap_err();
    assert!(matches!(
        err,
        WasiRuntimeError::Init(WasiStateCreationError::ArgumentContainsNulByte(_))
    ));
}

#[test]
fn setup_callback_can_refuse() {
    let err = WasiEnvBuilder::new("prog")
        .build_init_with_setup(|_fs| Err("no".to_string()))
        .unwrap_err();
    assert_eq!(err, WasiStateCreationError::WasiFsSetupError("no".to_string()));
    let init = WasiEnvBuilder::new("prog")
        .build_init_with_setup(|mut fs| {
            fs.stdout = VirtualFile::Host(8);
            Ok(fs)
        })
        .unwrap();
    assert_eq!(init.state.fs.stdout, VirtualFile::Host(8));
}

#[test]
fn secrets_are_fresh() {
    let a = WasiEnvBuilder::new("prog").build_init().unwrap();
    let b = WasiEnvBuilder::new("prog").build_init().unwrap();
    assert_ne!(a.state.secret, b.state.secret);
}

#[test]
fn setup_fs_step_runs_after_assembly() {
    let init = WasiEnvBuilder::new("prog")
        .stdin(VirtualFile::Host(2))
        .setup_fs(|mut fs| {
            assert_eq!(fs.stdin, VirtualFile::Host(2));
            fs.stderr = VirtualFile::Host(6);
            Ok(fs)
        })
        .build_init()
        .unwrap();
    assert_eq!(init.state.fs.stderr, VirtualFile::Host(6));
    let err = WasiEnvBuilder::new("prog")
        .arg("x\0")
        .setup_fs(|_fs| Err("unused".to_string()))
        .build_init()
        .unwrap_err();
    assert!(matches!(err, WasiStateCreationError::ArgumentContainsNulByte(_)));
}

#[test]
fn only_standard_descriptors_can_be_swapped() {
    let mut init = WasiEnvBuilder::new("prog").build_init().unwrap();
    assert_eq!(
        init.state.fs.swap_file(1, VirtualFile::Host(3)),
        Ok(VirtualFile::ConsoleStdout)
    );
    assert_eq!(init.state.fs.stdout, VirtualFile::Host(3));
    assert_eq!(init.state.fs.swap_file(5, VirtualFile::Host(4)), Err(FsError::InvalidFd));
}
