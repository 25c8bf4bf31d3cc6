//! The fixed layout of files and directories on the EFI System Partition.

use vstd::prelude::*;

use crate::uefi::{join, lemma_join_twice, path_join};

verus! {

/// The paths that an ESP mounted at `root` holds, in the order in which they
/// are handed out: the root, `EFI`, the NixOS and generic Linux binaries
/// directories, the fallback boot directory and binary, the systemd-boot
/// directory and binary, the loader directory and its configuration file.
pub open spec fn esp_layout(root: Seq<char>) -> Seq<Seq<char>> {
    let efi = path_join(root, "EFI"@);
    let fallback_dir = path_join(efi, "BOOT"@);
    let systemd = path_join(efi, "systemd"@);
    let loader = path_join(root, "loader"@);
    seq![
        root,
        efi,
        path_join(efi, "nixos"@),
        path_join(efi, "Linux"@),
        fallback_dir,
        path_join(fallback_dir, "BOOTX64.EFI"@),
        systemd,
        path_join(systemd, "systemd-bootx64.efi"@),
        loader,
        path_join(loader, "loader.conf"@),
    ]
}

/// The path below `root` named by `suffix`; the root itself for an empty one.
pub open spec fn under_root(root: Seq<char>, suffix: Seq<char>) -> Seq<char> {
    if suffix.len() == 0 {
        root
    } else {
        path_join(root, suffix)
    }
}

/// Where each managed path lies relative to the ESP root, in enumeration order.
pub open spec fn managed_suffixes() -> Seq<Seq<char>> {
    seq![
        ""@,
        "EFI"@,
        "EFI/nixos"@,
        "EFI/Linux"@,
        "EFI/BOOT"@,
        "EFI/BOOT/BOOTX64.EFI"@,
        "EFI/systemd"@,
        "EFI/systemd/systemd-bootx64.efi"@,
        "loader"@,
        "loader/loader.conf"@,
    ]
}

/// Every path of the layout is the root joined with its fixed suffix, and the
/// layout always holds the same number of paths.
pub proof fn lemma_layout_has_fixed_suffixes(root: Seq<char>)
    ensures
        esp_layout(root).len() == managed_suffixes().len(),
        forall|i: int|
            0 <= i < esp_layout(root).len() ==> #[trigger] esp_layout(root)[i] == under_root(
                root,
                managed_suffixes()[i],
            ),
{
    reveal_strlit("");
    reveal_strlit("EFI");
    reveal_strlit("nixos");
    reveal_strlit("Linux");
    reveal_strlit("BOOT");
    reveal_strlit("BOOTX64.EFI");
    reveal_strlit("systemd");
    reveal_strlit("systemd-bootx64.efi");
    reveal_strlit("loader");
    reveal_strlit("loader.conf");
    reveal_strlit("EFI/nixos");
    reveal_strlit("EFI/Linux");
    reveal_strlit("EFI/BOOT");
    reveal_strlit("EFI/BOOT/BOOTX64.EFI");
    reveal_strlit("EFI/systemd");
    reveal_strlit("EFI/systemd/systemd-bootx64.efi");
    reveal_strlit("loader/loader.conf");
    let efi = "EFI"@;
    let boot = "EFI/BOOT"@;
    let systemd = "EFI/systemd"@;
    lemma_join_twice(root, efi, "nixos"@);
    lemma_join_twice(root, efi, "Linux"@);
    lemma_join_twice(root, efi, "BOOT"@);
    lemma_join_twice(root, efi, "systemd"@);
    lemma_join_twice(root, "loader"@, "loader.conf"@);
    assert(efi + seq!['/'] + "nixos"@ =~= "EFI/nixos"@);
    assert(efi + seq!['/'] + "Linux"@ =~= "EFI/Linux"@);
    assert(efi + seq!['/'] + "BOOT"@ =~= boot);
    assert(efi + seq!['/'] + "systemd"@ =~= systemd);
    assert("loader"@ + seq!['/'] + "loader.conf"@ =~= "loader/loader.conf"@);
    lemma_join_twice(root, boot, "BOOTX64.EFI"@);
    lemma_join_twice(root, systemd, "systemd-bootx64.efi"@);
    assert(boot + seq!['/'] + "BOOTX64.EFI"@ =~= "EFI/BOOT/BOOTX64.EFI"@);
    assert(systemd + seq!['/'] + "systemd-bootx64.efi"@ =~= "EFI/systemd/systemd-bootx64.efi"@);
}

/// Paths to the boot files that are not specific to a generation.
pub struct EspPaths {
    pub esp: String,
    pub efi: String,
    pub nixos: String,
    pub linux: String,
    pub efi_fallback_dir: String,
    pub efi_fallback: String,
    pub systemd: String,
    pub systemd_boot: String,
    pub loader: String,
    pub systemd_boot_loader_config: String,
}

impl EspPaths {
    /// The paths in the order of `esp_layout`.
    pub open spec fn paths(&self) -> Seq<Seq<char>> {
        seq![
            self.esp@,
            self.efi@,
            self.nixos@,
            self.linux@,
            self.efi_fallback_dir@,
            self.efi_fallback@,
            self.systemd@,
            self.systemd_boot@,
            self.loader@,
            self.systemd_boot_loader_config@,
        ]
    }

    /// Build the ESP path structure out of the ESP root directory.
    pub fn new(esp: &str) -> (r: Self)
        ensures
            r.paths() == esp_layout(esp@),
    {
        let efi = join(esp, "EFI");
        let efi_nixos = join(efi.as_str(), "nixos");
        let efi_linux = join(efi.as_str(), "Linux");
        let efi_systemd = join(efi.as_str(), "systemd");
        let efi_efi_fallback_dir = join(efi.as_str(), "BOOT");
        let loader = join(esp, "loader");
        let systemd_boot_loader_config = join(loader.as_str(), "loader.conf");
        let efi_fallback = join(efi_efi_fallback_dir.as_str(), "BOOTX64.EFI");
        let systemd_boot = join(efi_systemd.as_str(), "systemd-bootx64.efi");
        let r = EspPaths {
            esp: String::from_str(esp),
            efi,
            nixos: efi_nixos,
            linux: efi_linux,
            efi_fallback_dir: efi_efi_fallback_dir,
            efi_fallback,
            systemd: efi_systemd,
            systemd_boot,
            loader,
            systemd_boot_loader_config,
        };
        assert(r.paths() =~= esp_layout(esp@));
        r
    }

    /// The managed paths, to be registered as garbage collection roots.
    pub fn to_iter(&self) -> (r: [&String; 10])
        ensures
            r@.len() == 10,
            forall|i: int| 0 <= i < 10 ==> #[trigger] r@[i]@ == self.paths()[i],
    {
        [
            &self.esp,
            &self.efi,
            &self.nixos,
            &self.linux,
            &self.efi_fallback_dir,
            &self.efi_fallback,
            &self.systemd,
            &self.systemd_boot,
            &self.loader,
            &self.systemd_boot_loader_config,
        ]
    }
}

impl crate::layout::EspPaths<10> for EspPaths {
    open spec fn root(&self) -> Seq<char> {
        self.esp@
    }

    open spec fn managed(&self) -> Seq<Seq<char>> {
        self.paths()
    }

    open spec fn nixos_dir(&self) -> Seq<char> {
        self.nixos@
    }

    open spec fn linux_dir(&self) -> Seq<char> {
        self.linux@
    }

    fn new(esp: &str) -> (r: Self) {
        EspPaths::new(esp)
    }

    fn iter(&self) -> (r: [&String; 10]) {
        self.to_iter()
    }

    fn nixos_path(&self) -> (r: &str) {
        self.nixos.as_str()
    }

    fn linux_path(&self) -> (r: &str) {
        self.linux.as_str()
    }
}

} // verus!
