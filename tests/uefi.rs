use lanzaboote_tool::uefi::{esp_relative_uefi_path, join, uefi_path, PathError};

#[test]
fn convert_to_valid_uefi_path_relative_to_esp() {
    let esp = "esp";
    let path = "esp/lanzaboote/is/great.txt";
    let converted_path = esp_relative_uefi_path(esp, path).unwrap();
    let expected_path = String::from("\\lanzaboote\\is\\great.txt");
    assert_eq!(converted_path, expected_path);
}

#[test]
fn convert_to_valid_uefi_path() {
    let path = "lanzaboote/is/great.txt";
    let converted_path = uefi_path(path);
    let expected_path = String::from("lanzaboote\\is\\great.txt");
    assert_eq!(converted_path, expected_path);
}

#[test]
fn uefi_path_keeps_other_characters() {
    assert_eq!(uefi_path(""), "");
    assert_eq!(uefi_path("no-separator.efi"), "no-separator.efi");
    assert_eq!(uefi_path("/a//b/"), "\\a\\\\b\\");
    assert_eq!(uefi_path("ä/ö"), "ä\\ö");
}

#[test]
fn path_outside_esp_is_a_prefix_error() {
    assert_eq!(esp_relative_uefi_path("esp", "other/x.efi"), Err(PathError::Prefix));
    assert_eq!(esp_relative_uefi_path("esp", "espa/x.efi"), Err(PathError::Prefix));
    assert_eq!(esp_relative_uefi_path("esp/a", "esp"), Err(PathError::Prefix));
    assert_eq!(esp_relative_uefi_path("", "/abs"), Err(PathError::Prefix));
}

#[test]
fn esp_relative_edge_cases() {
    assert_eq!(esp_relative_uefi_path("esp", "esp").unwrap(), "\\");
    assert_eq!(esp_relative_uefi_path("/boot/", "/boot/EFI/x.efi").unwrap(), "\\EFI\\x.efi");
    assert_eq!(esp_relative_uefi_path("/boot", "/boot/EFI/x.efi").unwrap(), "\\EFI\\x.efi");
    assert_eq!(esp_relative_uefi_path("", "a/b").unwrap(), "\\a\\b");
}

#[test]
fn joined_path_round_trips_through_esp_relative() {
    let root = "/boot";
    let p = join(root, "EFI/nixos/kernel.efi");
    assert_eq!(p, "/boot/EFI/nixos/kernel.efi");
    assert_eq!(esp_relative_uefi_path(root, &p).unwrap(), "\\EFI\\nixos\\kernel.efi");
}

#[test]
fn join_adds_one_separator() {
    assert_eq!(join("esp", "EFI"), "esp/EFI");
    assert_eq!(join("esp/", "EFI"), "esp/EFI");
    assert_eq!(join("", "EFI"), "EFI");
}
