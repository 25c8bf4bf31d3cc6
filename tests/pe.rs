use lanzaboote_tool::pe::{
    file_hash, free_offset, hex, kernel_cmdline_text, lanzaboote_sections, objcopy_args,
    plan_sections, s, stub_offset, PeHeaders, SectionFile, SectionSource, StubContents,
    StubError,
};

fn source(name: &str, path: &str, size: u64) -> SectionSource {
    SectionSource { name: name.to_string(), file_path: path.to_string(), size }
}

fn put_u16(b: &mut Vec<u8>, v: u16) {
    b.extend_from_slice(&v.to_le_bytes());
}

fn put_u32(b: &mut Vec<u8>, v: u32) {
    b.extend_from_slice(&v.to_le_bytes());
}

fn put_u64(b: &mut Vec<u8>, v: u64) {
    b.extend_from_slice(&v.to_le_bytes());
}

/// A PE32+ image with one section and, where asked, an optional header.
fn minimal_pe(image_base: Option<u64>, virtual_address: u32, virtual_size: u32) -> Vec<u8> {
    let mut b = vec![0u8; 0x80];
    b[0] = b'M';
    b[1] = b'Z';
    b[0x3c..0x40].copy_from_slice(&0x80u32.to_le_bytes());
    b.extend_from_slice(b"PE\0\0");
    put_u16(&mut b, 0x8664);
    put_u16(&mut b, 1);
    put_u32(&mut b, 0);
    put_u32(&mut b, 0);
    put_u32(&mut b, 0);
    put_u16(&mut b, if image_base.is_some() { 112 } else { 0 });
    put_u16(&mut b, 0x0022);
    if let Some(base) = image_base {
        put_u16(&mut b, 0x20b);
        b.extend_from_slice(&[0, 0]);
        for _ in 0..5 {
            put_u32(&mut b, 0);
        }
        put_u64(&mut b, base);
        put_u32(&mut b, 0x1000);
        put_u32(&mut b, 0x200);
        for _ in 0..6 {
            put_u16(&mut b, 0);
        }
        put_u32(&mut b, 0);
        put_u32(&mut b, 0x2000);
        put_u32(&mut b, 0x200);
        put_u32(&mut b, 0);
        put_u16(&mut b, 10);
        put_u16(&mut b, 0);
        for _ in 0..4 {
            put_u64(&mut b, 0x1000);
        }
        put_u32(&mut b, 0);
        put_u32(&mut b, 0);
    }
    b.extend_from_slice(b".text\0\0\0");
    put_u32(&mut b, virtual_size);
    put_u32(&mut b, virtual_address);
    for _ in 0..4 {
        put_u32(&mut b, 0);
    }
    put_u16(&mut b, 0);
    put_u16(&mut b, 0);
    put_u32(&mut b, 0x6000_0020);
    b.resize(0x400, 0);
    b
}

#[test]
fn free_offset_is_image_base_plus_last_section_end() {
    let h = PeHeaders { image_base: Some(0x1_0000), sections: vec![(0x1000, 0x10), (0x3000, 0x234)] };
    assert_eq!(free_offset(&h), Ok(0x1_0000 + 0x3000 + 0x234));
}

#[test]
fn free_offset_errors() {
    let no_sections = PeHeaders { image_base: Some(0x40000000), sections: vec![] };
    assert_eq!(free_offset(&no_sections), Err(StubError::NoSections));
    let no_header = PeHeaders { image_base: None, sections: vec![(0x1000, 0x100)] };
    assert_eq!(free_offset(&no_header), Err(StubError::MissingOptionalHeader));
    let too_far = PeHeaders { image_base: Some(u64::MAX - 0x100), sections: vec![(0x1000, 0x100)] };
    assert_eq!(free_offset(&too_far), Err(StubError::OffsetOverflow));
    let edge = PeHeaders { image_base: Some(u64::MAX - 0x1100), sections: vec![(0x1000, 0x100)] };
    assert_eq!(free_offset(&edge), Ok(u64::MAX));
}

#[test]
fn stub_offset_rejects_non_pe_bytes() {
    assert_eq!(stub_offset(b""), Err(StubError::Parse));
    assert_eq!(stub_offset(b"this is not a PE image at all"), Err(StubError::Parse));
}

#[test]
fn stub_offset_of_parsed_image() {
    let pe = minimal_pe(Some(0x40000000), 0x1000, 0x100);
    assert_eq!(stub_offset(&pe), Ok(0x40001100));
}

#[test]
fn stub_offset_without_optional_header() {
    let pe = minimal_pe(None, 0x1000, 0x100);
    assert_eq!(stub_offset(&pe), Err(StubError::MissingOptionalHeader));
}

#[test]
fn two_sections_after_one_section_stub() {
    let h = PeHeaders { image_base: Some(0x40000000), sections: vec![(0x1000, 0x100)] };
    let base = free_offset(&h).unwrap();
    assert_eq!(base, 0x40001100);
    let planned =
        plan_sections(base, &vec![source(".a", "a", 20), source(".b", "b", 40)]).unwrap();
    assert_eq!(planned.len(), 2);
    assert_eq!(planned[0].offset, 0x40001100);
    assert_eq!(planned[1].offset, 0x40001114);
    assert_eq!(planned[1].name, ".b");
    assert_eq!(planned[1].file_path, "b");
}

#[test]
fn planned_offsets_are_cumulative() {
    let sources = vec![source(".x", "x", 3), source(".y", "y", 0), source(".z", "z", 7), source(".w", "w", 1)];
    let planned = plan_sections(100, &sources).unwrap();
    let offsets: Vec<u64> = planned.iter().map(|p| p.offset).collect();
    assert_eq!(offsets, vec![100, 103, 103, 110]);
    assert!(plan_sections(5, &vec![]).unwrap().is_empty());
}

#[test]
fn planned_offsets_overflow() {
    let last_fits = vec![source(".a", "a", 10), source(".b", "b", u64::MAX)];
    assert_eq!(plan_sections(u64::MAX - 10, &last_fits).unwrap()[1].offset, u64::MAX);
    let too_far = vec![source(".a", "a", 11), source(".b", "b", 1)];
    assert!(plan_sections(u64::MAX - 10, &too_far).is_none());
}

fn file(path: &str, size: u64) -> SectionFile {
    SectionFile { path: path.to_string(), size }
}

#[test]
fn stub_sections_follow_protocol_order() {
    let contents = StubContents {
        os_release: file("/etc/os-release", 100),
        kernel_cmdline: file("/tmp/kernel-cmdline", 20),
        initrd_path: file("/tmp/initrd-path", 30),
        kernel_path: file("/tmp/kernel-path", 31),
        initrd_hash: file("/tmp/initrd-hash", 32),
        kernel_hash: file("/tmp/kernel-hash", 32),
    };
    let planned = lanzaboote_sections(0x1000, &contents).unwrap();
    let names: Vec<&str> = planned.iter().map(|p| p.name.as_str()).collect();
    assert_eq!(names, vec![".osrel", ".cmdline", ".initrdp", ".kernelp", ".initrdh", ".kernelh"]);
    let offsets: Vec<u64> = planned.iter().map(|p| p.offset).collect();
    assert_eq!(offsets, vec![0x1000, 0x1064, 0x1078, 0x1096, 0x10b5, 0x10d5]);
    assert_eq!(planned[3].file_path, "/tmp/kernel-path");
}

#[test]
fn hex_matches_alternate_lower_hex() {
    for n in [0u64, 9, 10, 15, 16, 255, 0x40001100, u64::MAX] {
        assert_eq!(hex(n), format!("{:#x}", n));
    }
    assert_eq!(hex(0x40001114), "0x40001114");
}

#[test]
fn section_to_objcopy_arguments() {
    let sec = s(".osrel", "/etc/os-release", 0x40001100);
    assert_eq!(
        sec.to_objcopy(),
        vec!["--add-section", ".osrel=/etc/os-release", "--change-section-vma", ".osrel=0x40001100"]
    );
}

#[test]
fn objcopy_command_line() {
    let sections = vec![s(".a", "fa", 16), s(".b", "fb", 255)];
    assert_eq!(
        objcopy_args("stub.efi", &sections, "out.efi"),
        vec![
            "--add-section", ".a=fa", "--change-section-vma", ".a=0x10",
            "--add-section", ".b=fb", "--change-section-vma", ".b=0xff",
            "stub.efi", "out.efi",
        ]
    );
    assert_eq!(objcopy_args("s", &vec![], "o"), vec!["s", "o"]);
}

#[test]
fn kernel_cmdline_is_space_joined() {
    let parts = vec!["init=/nix/store/x/init".to_string(), "quiet".to_string(), "loglevel=4".to_string()];
    assert_eq!(kernel_cmdline_text(&parts), "init=/nix/store/x/init quiet loglevel=4");
    assert_eq!(kernel_cmdline_text(&vec![]), "");
    assert_eq!(kernel_cmdline_text(&vec!["one".to_string()]), "one");
}

fn hex_bytes(b: &[u8]) -> String {
    b.iter().map(|x| format!("{:02x}", x)).collect()
}

#[test]
fn file_hash_is_sha256() {
    assert_eq!(
        hex_bytes(&file_hash(b"")),
        "e3b0c44298fc1c149afbf4c8996fb92427ae41e4649b934ca495991b7852b855"
    );
    assert_eq!(
        hex_bytes(&file_hash(b"abc")),
        "ba7816bf8f01cfea414140de5dae2223b00361a396177a9cb410ff61f20015ad"
    );
}

#[test]
fn file_hash_is_deterministic_and_sensitive() {
    let a = b"kernel image bytes".to_vec();
    let mut b = a.clone();
    assert_eq!(file_hash(&a), file_hash(&a));
    assert_eq!(file_hash(&a).len(), 32);
    b[3] ^= 1;
    assert_ne!(file_hash(&a), file_hash(&b));
}
