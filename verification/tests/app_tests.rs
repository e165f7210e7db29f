use rust_printer::app::OS;

fn args(v: &[&str]) -> Vec<String> {
    v.iter().map(|s| s.to_string()).collect()
}

#[test]
fn server_mode() {
    assert!(OS::accepts_args(&args(&["RustPrinter"]), false));
    assert!(matches!(OS::parse_args(&args(&["RustPrinter"]), false), OS::Others));
    assert!(matches!(OS::parse_args(&args(&["RustPrinter"]), true), OS::Others));
    assert!(matches!(OS::try_parse_args(&args(&["RustPrinter"]), true), Some(OS::Others)));
}

#[test]
fn windows_mode() {
    let a = args(&["UPMPrinter.exe", "/JOBID:17", "/PRINTER:联创打印管理系统"]);
    assert!(OS::accepts_args(&a, true));
    match OS::parse_args(&a, true) {
        OS::Windows((id, name)) => {
            assert_eq!(id, 17);
            assert_eq!(name, "联创打印管理系统");
        }
        _ => panic!("expected Windows mode"),
    }
    let r = OS::try_parse_args(&a, true);
    match r {
        Some(OS::Windows((id, name))) => {
            assert_eq!(id, 17);
            assert_eq!(name, "联创打印管理系统");
        }
        _ => panic!("expected Windows mode"),
    }
    let r = OS::try_parse_args(&args(&["x", "--x /JOBID:0042 y", "/PRINTER:P_1 more"]), true);
    match r {
        Some(OS::Windows((id, name))) => {
            assert_eq!(id, 42);
            assert_eq!(name, "P_1");
        }
        _ => panic!("expected Windows mode"),
    }
}

#[test]
fn refused_arguments() {
    assert!(OS::try_parse_args(&args(&["x", "/JOBID:17", "/PRINTER:P"]), false).is_none());
    assert!(OS::try_parse_args(&args(&["x", "/JOB:17", "/PRINTER:P"]), true).is_none());
    assert!(OS::try_parse_args(&args(&["x", "/JOBID:17", "/PRINTER:"]), true).is_none());
    assert!(OS::try_parse_args(&args(&["x", "/JOBID:4294967296", "/PRINTER:P"]), true).is_none());
    assert!(OS::try_parse_args(&args(&["x", "/JOBID:١٢", "/PRINTER:P"]), true).is_none());
    assert!(OS::try_parse_args(&args(&["x", "y"]), true).is_none());
    assert!(OS::try_parse_args(&args(&[]), true).is_none());
    assert!(!OS::accepts_args(&args(&["x", "y"]), true));
    assert!(!OS::accepts_args(&args(&["x", "/JOBID:17", "/PRINTER:P"]), false));
}
