use detect::arch_os;
use detect::FFISlice;

#[test]
fn names_a_target_by_architecture_hyphen_system() {
    assert_eq!(arch_os("x86_64", "linux"), "x86_64-linux");
    assert_eq!(arch_os("aarch64", "macos"), "aarch64-macos");
    assert_eq!(arch_os("wasm32", "unknown"), "wasm32-unknown");
}

#[test]
fn keeps_each_part_as_given() {
    assert_eq!(arch_os("", ""), "-");
    assert_eq!(arch_os("x86", ""), "x86-");
    assert_eq!(arch_os("", "windows"), "-windows");
    assert_eq!(arch_os("a-b", "c-d"), "a-b-c-d");
}

#[test]
fn reports_the_same_text_each_time() {
    let first = arch_os("x86_64", "linux");
    let second = arch_os("x86_64", "linux");
    assert_eq!(first, second);
    assert_eq!(first.as_bytes(), second.as_bytes());
    assert_eq!(
        FFISlice::new(8, &first).len,
        FFISlice::new(4096, &second).len
    );
}

#[test]
fn gives_each_call_a_text_of_its_own() {
    let first = arch_os("x86_64", "linux");
    let second = arch_os("x86_64", "linux");
    assert_ne!(first.as_ptr(), second.as_ptr());
    drop(first);
    assert_eq!(second, "x86_64-linux");
}

#[test]
fn name_is_its_parts_and_one_byte() {
    let text = arch_os("x86_64", "linux");
    assert_eq!(text.len(), "x86_64".len() + 1 + "linux".len());
    assert_eq!(text.as_bytes()[6], 0x2d);
    assert_eq!(&text.as_bytes()[..6], "x86_64".as_bytes());
    assert_eq!(&text.as_bytes()[7..], "linux".as_bytes());
}
