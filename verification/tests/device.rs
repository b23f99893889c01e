use frida::calls::{
    AttachCall, EnumerateProcessesCall, InputCall, KillCall, QuerySystemParametersCall, ResumeCall,
    SpawnCall,
};
use frida::{
    Device, DeviceType, Error, NativeError, PidLike, Process, Scope, Session, SpawnOptions,
    SpawnStdio, SpawnedPid, SystemParameters,
};

fn native(code: i32, message: &[u8]) -> NativeError {
    NativeError {
        code,
        message: message.to_vec(),
    }
}

fn options(spawn_stdio: SpawnStdio) -> SpawnOptions {
    SpawnOptions {
        options_ptr: 0x70,
        spawn_stdio,
    }
}

#[test]
fn raw_address_is_kept() {
    assert_eq!(Device::from_raw(7).as_raw(), 7);
}

#[test]
fn name_and_id_are_text() {
    let device = Device::from_raw(1);
    assert_eq!(device.get_name(b"Local System"), "Local System");
    assert_eq!(device.get_id(b"local"), "local");
    assert_eq!(device.get_name("T\u{e9}l\u{e9}phone \u{1f4f1}".as_bytes()), "T\u{e9}l\u{e9}phone \u{1f4f1}");
    assert_eq!(device.get_name(b""), "");
}

#[test]
fn name_and_id_that_are_not_utf8_are_empty() {
    let device = Device::from_raw(1);
    assert_eq!(device.get_name(b"ok\xff"), "");
    assert_eq!(device.get_id(&[0xc3]), "");
    // An overlong encoding and a surrogate.
    assert_eq!(device.get_id(&[0xc0, 0x80]), "");
    assert_eq!(device.get_id(&[0xed, 0xa0, 0x80]), "");
}

#[test]
fn type_of_the_local_device() {
    let device = Device::from_raw(1);
    assert_eq!(device.get_type(0), DeviceType::Local);
    assert_eq!(device.get_type(1), DeviceType::Remote);
    assert_eq!(device.get_type(2), DeviceType::USB);
}

#[test]
fn device_type_numbers_round_trip() {
    for device_type in [DeviceType::Local, DeviceType::Remote, DeviceType::USB] {
        let number = u32::from(device_type);
        assert!(DeviceType::known(number));
        assert_eq!(DeviceType::from(number), device_type);
    }
    assert_eq!(u32::from(DeviceType::Local), 0);
    assert_eq!(u32::from(DeviceType::Remote), 1);
    assert_eq!(u32::from(DeviceType::USB), 2);
    assert!(!DeviceType::known(3));
    assert!(!DeviceType::known(u32::MAX));
}

#[test]
fn device_type_names() {
    for device_type in [DeviceType::Local, DeviceType::Remote, DeviceType::USB] {
        assert_eq!(device_type.to_string(), format!("{:?}", device_type));
    }
    assert_eq!(DeviceType::USB.to_string(), "USB");
}

#[test]
fn lost_is_exactly_one() {
    let device = Device::from_raw(1);
    assert!(device.is_lost(1));
    assert!(!device.is_lost(0));
    assert!(!device.is_lost(2));
    assert!(!device.is_lost(-1));
}

#[test]
fn scope_numbers() {
    assert_eq!(i32::from(Scope::Minimal), 0);
    assert_eq!(i32::from(Scope::Metadata), 1);
    assert_eq!(i32::from(Scope::Full), 2);
}

#[test]
fn enumeration_asks_with_the_scope() {
    let device = Device::from_raw(9);
    assert_eq!(
        device.enumerate_processes(),
        EnumerateProcessesCall { device: 9, scope: 0 }
    );
    assert_eq!(
        device.enumerate_processes_with_options(Scope::Full),
        EnumerateProcessesCall { device: 9, scope: 2 }
    );
    assert_eq!(
        device.enumerate_processes_with_options(Scope::Minimal),
        device.enumerate_processes()
    );
}

#[test]
fn processes_are_fetched_in_order() {
    let addresses = [0x10, 0x30, 0x20, 0x30];
    let mut listing = Device::from_raw(9).enumerate_processes().complete(4, false);
    let mut asked = Vec::new();
    while let Some(index) = listing.next_index() {
        asked.push(index);
        listing.accept(addresses[index as usize]);
    }
    assert_eq!(asked, [0, 1, 2, 3]);
    let expected: Vec<Process> = addresses
        .iter()
        .map(|address| Process { process_ptr: *address })
        .collect();
    assert_eq!(listing.into_processes(), expected);
}

#[test]
fn failed_enumeration_has_no_processes() {
    let listing = Device::from_raw(9).enumerate_processes().complete(3, true);
    assert_eq!(listing.next_index(), None);
    assert_eq!(listing.into_processes(), Vec::new());
    // The size is not looked at.
    let listing = Device::from_raw(9).enumerate_processes().complete(-1, true);
    assert_eq!(listing.next_index(), None);
    let listing = Device::from_raw(9).enumerate_processes().complete(0, false);
    assert_eq!(listing.into_processes(), Vec::new());
}

#[test]
fn attach_takes_both_kinds_of_pid() {
    let device = Device::from_raw(5);
    assert_eq!(device.attach(42u32), AttachCall { device: 5, pid: 42 });
    assert_eq!(
        device.attach(SpawnedPid::Unknown(42)),
        AttachCall { device: 5, pid: 42 }
    );
}

#[test]
fn attach_result() {
    let device = Device::from_raw(5);
    assert_eq!(
        device.attach(42u32).complete(0x99, false),
        Ok(Session { session_ptr: 0x99 })
    );
    assert_eq!(
        device.attach(42u32).complete(0x99, true),
        Err(Error::DeviceAttachError)
    );
}

#[test]
fn spawn_hands_over_a_c_string() {
    let mut device = Device::from_raw(5);
    assert_eq!(
        device.spawn("/bin/\u{e9}", &options(SpawnStdio::Pipe)),
        SpawnCall {
            device: 5,
            program: vec![b'/', b'b', b'i', b'n', b'/', 0xc3, 0xa9, 0],
            options_ptr: 0x70,
            spawn_stdio: SpawnStdio::Pipe,
        }
    );
    assert_eq!(device.spawn("", &options(SpawnStdio::Inherit)).program, [0]);
}

#[test]
fn nul_is_found_in_programs() {
    assert!(frida::text::has_nul("\0"));
    assert!(frida::text::has_nul("/bin/\u{e9}\0ls"));
    assert!(!frida::text::has_nul("/bin/\u{e9}\u{1f4f1}"));
    assert!(!frida::text::has_nul(""));
}

#[test]
fn spawned_pid_tells_the_stdio_routing() {
    let mut device = Device::from_raw(5);
    assert_eq!(
        device.spawn("ls", &options(SpawnStdio::Inherit)).complete(31, None),
        Ok(SpawnedPid::InheritedStdio(31))
    );
    assert_eq!(
        device.spawn("ls", &options(SpawnStdio::Pipe)).complete(31, None),
        Ok(SpawnedPid::PipedStdio(31))
    );
}

#[test]
fn spawn_failure_is_reported() {
    let mut device = Device::from_raw(5);
    assert_eq!(
        device
            .spawn("ls", &options(SpawnStdio::Pipe))
            .complete(31, Some(native(4, "Unable to find ex\u{e9}cutable".as_bytes()))),
        Err(Error::SpawnFailed {
            code: 4,
            message: "Unable to find ex\u{e9}cutable".to_owned(),
        })
    );
    assert_eq!(
        device
            .spawn("ls", &options(SpawnStdio::Pipe))
            .complete(31, Some(native(4, b"\xff"))),
        Err(Error::CStringFailed)
    );
}

#[test]
fn resume_result() {
    let device = Device::from_raw(5);
    assert_eq!(
        device.resume(SpawnedPid::PipedStdio(8)),
        ResumeCall { device: 5, pid: 8 }
    );
    assert_eq!(device.resume(8u32), ResumeCall { device: 5, pid: 8 });
    assert_eq!(device.resume(8u32).complete(None), Ok(()));
    assert_eq!(
        device.resume(8u32).complete(Some(native(-2, b"Invalid PID"))),
        Err(Error::ResumeFailed {
            code: -2,
            message: "Invalid PID".to_owned(),
        })
    );
    assert_eq!(
        device.resume(8u32).complete(Some(native(-2, b"\x80"))),
        Err(Error::CStringFailed)
    );
}

#[test]
fn kill_result() {
    let mut device = Device::from_raw(5);
    assert_eq!(device.kill(8), KillCall { device: 5, pid: 8 });
    assert_eq!(device.kill(8).complete(None), Ok(()));
    assert_eq!(
        device.kill(8).complete(Some(native(1, b""))),
        Err(Error::KillFailed {
            code: 1,
            message: String::new(),
        })
    );
    assert_eq!(
        device.kill(8).complete(Some(native(1, &[0xe2, 0x82]))),
        Err(Error::CStringFailed)
    );
}

#[test]
fn input_goes_to_piped_processes() {
    let device = Device::from_raw(5);
    let data = b"hello\n";
    assert_eq!(
        device.input(SpawnedPid::PipedStdio(8), data),
        Ok(InputCall {
            device: 5,
            pid: 8,
            data,
        })
    );
    assert_eq!(
        device.input(SpawnedPid::PipedStdio(8), data).unwrap().complete(None),
        Ok(())
    );
}

#[test]
fn input_to_others_is_refused() {
    let device = Device::from_raw(5);
    for pid in [SpawnedPid::InheritedStdio(8), SpawnedPid::Unknown(8)] {
        assert_eq!(
            device.input(pid, b"hello\n"),
            Err(Error::DeviceInputFailed {
                pid: 8,
                code: None,
                message: "process must be spawned with piped stdio".to_owned(),
            })
        );
    }
}

#[test]
fn input_failure_has_a_code() {
    let device = Device::from_raw(5);
    let call = device.input(SpawnedPid::PipedStdio(8), b"").unwrap();
    assert_eq!(
        call.complete(Some(native(3, b"Broken pipe"))),
        Err(Error::DeviceInputFailed {
            pid: 8,
            code: Some(3),
            message: "Broken pipe".to_owned(),
        })
    );
    let call = device.input(SpawnedPid::PipedStdio(8), b"").unwrap();
    assert_eq!(
        call.complete(Some(native(3, b"Broken \xfe"))),
        Err(Error::CStringFailed)
    );
}

#[test]
fn input_follows_the_spawn() {
    let mut device = Device::from_raw(5);
    let piped = device
        .spawn("cat", &options(SpawnStdio::Pipe))
        .complete(77, None)
        .unwrap();
    assert_eq!(device.input(piped, b"x").unwrap().pid, 77);
    let inherited = device
        .spawn("cat", &options(SpawnStdio::Inherit))
        .complete(77, None)
        .unwrap();
    assert!(device.input(inherited, b"x").is_err());
}

#[test]
fn system_parameters_are_collected() {
    let device = Device::from_raw(5);
    let call = device.query_system_parameters();
    assert_eq!(call, QuerySystemParametersCall { device: 5 });
    let mut parameters: SystemParameters<i64> = call.complete(2, None).unwrap();
    assert_eq!(parameters.get("os"), None);
    parameters.accept(b"os", 1);
    parameters.accept("na\u{ef}f".as_bytes(), 2);
    assert_eq!(parameters.get("os"), Some(&1));
    assert_eq!(parameters.get("na\u{ef}f"), Some(&2));
    assert_eq!(parameters.get("arch"), None);
    let mut entries = parameters.into_entries();
    entries.sort();
    assert_eq!(
        entries,
        [("na\u{ef}f".to_owned(), 2), ("os".to_owned(), 1)]
    );
}

#[test]
fn last_value_of_a_parameter_counts() {
    let mut parameters: SystemParameters<i64> = SystemParameters::with_capacity(0);
    parameters.insert("os".to_owned(), 1);
    parameters.insert("arch".to_owned(), 2);
    parameters.insert("os".to_owned(), 3);
    assert_eq!(parameters.get("os"), Some(&3));
    assert_eq!(parameters.get("arch"), Some(&2));
    assert_eq!(parameters.into_entries().len(), 2);
}

#[test]
fn parameters_are_told_in_order() {
    let mut parameters: SystemParameters<i64> = SystemParameters::with_capacity(3);
    let told: [(&[u8], i64); 3] = [(b"os", 1), (b"arch", 2), (b"os", 3)];
    let mut expected = std::collections::HashMap::new();
    for (name, value) in told {
        parameters.accept(name, value);
        expected.insert(name, value);
        for (name, value) in &expected {
            assert_eq!(parameters.get(std::str::from_utf8(name).unwrap()), Some(value));
        }
    }
    let mut entries = parameters.into_entries();
    entries.sort();
    assert_eq!(entries, [("arch".to_owned(), 2), ("os".to_owned(), 3)]);
}

#[test]
fn parameter_names_that_are_not_utf8_are_patched() {
    let mut parameters: SystemParameters<i64> = SystemParameters::with_capacity(2);
    parameters.accept(b"o\xffs", 1);
    assert_eq!(parameters.get("o\u{fffd}s"), Some(&1));
    // Two names that are patched to the same text are one name.
    parameters.accept(b"o\xfes", 2);
    assert_eq!(parameters.get("o\u{fffd}s"), Some(&2));
    assert_eq!(parameters.into_entries().len(), 1);
}

#[test]
fn system_parameters_failure_is_reported() {
    let device = Device::from_raw(5);
    let failed = device
        .query_system_parameters()
        .complete::<i64>(0, Some(native(12, b"Not supported")));
    assert_eq!(
        failed.err(),
        Some(Error::DeviceQuerySystemParametersFailed {
            code: 12,
            message: "Not supported".to_owned(),
        })
    );
    let failed = device
        .query_system_parameters()
        .complete::<i64>(0, Some(native(12, b"\xc0")));
    assert_eq!(failed.err(), Some(Error::CStringFailed));
}

#[test]
fn spawned_pids_are_pids() {
    for pid in [
        SpawnedPid::InheritedStdio(6),
        SpawnedPid::PipedStdio(6),
        SpawnedPid::Unknown(6),
    ] {
        assert_eq!(*pid, 6);
        assert_eq!(u32::from(pid), 6);
        assert_eq!(pid.into_u32(), 6);
        assert!(pid == 6u32);
        assert!(pid != 7u32);
        assert_eq!(pid, pid);
    }
    assert_eq!(6u32.into_u32(), 6);
    assert_ne!(SpawnedPid::PipedStdio(6), SpawnedPid::Unknown(6));
    assert_ne!(SpawnedPid::PipedStdio(6), SpawnedPid::InheritedStdio(6));
    assert_ne!(SpawnedPid::PipedStdio(6), SpawnedPid::PipedStdio(7));
}
