use rust_printer::config::{cookie_path, join_with_separator, temp_dir};

#[test]
fn temp_dir_joins() {
    assert_eq!(temp_dir("/home/u/.config/RupmPrinter"), "/home/u/.config/RupmPrinter/temp");
    assert_eq!(temp_dir("/home/u/.config/RupmPrinter/"), "/home/u/.config/RupmPrinter/temp");
    assert_eq!(temp_dir(""), "temp");
}

#[test]
fn cookie_path_joins() {
    assert_eq!(cookie_path("/etc/x"), "/etc/x/cookie.txt");
    assert_eq!(cookie_path("/"), "/cookie.txt");
}

#[test]
fn joins_with_platform_separator() {
    let sep = std::path::MAIN_SEPARATOR;
    assert_eq!(temp_dir("conf"), format!("conf{}temp", sep));
    assert_eq!(cookie_path("conf"), format!("conf{}cookie.txt", sep));
}

#[test]
fn joins_windows_paths() {
    assert_eq!(
        join_with_separator("C:\\Users\\u\\AppData\\Roaming\\RupmPrinter", "temp", '\\'),
        "C:\\Users\\u\\AppData\\Roaming\\RupmPrinter\\temp"
    );
    assert_eq!(join_with_separator("C:\\conf\\", "cookie.txt", '\\'), "C:\\conf\\cookie.txt");
    assert_eq!(join_with_separator("C:/conf/", "temp", '\\'), "C:/conf/temp");
    assert_eq!(join_with_separator("C:", "temp", '\\'), "C:temp");
    assert_eq!(join_with_separator("", "temp", '\\'), "temp");
}

#[test]
fn joins_unix_paths() {
    assert_eq!(join_with_separator("/a", "temp", '/'), "/a/temp");
    assert_eq!(join_with_separator("/a\\", "temp", '/'), "/a\\/temp");
    assert_eq!(join_with_separator("C:", "temp", '/'), "C:/temp");
}
