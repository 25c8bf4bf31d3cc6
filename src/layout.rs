//! What every ESP layout offers, whatever the number of paths it manages.

use vstd::prelude::*;

verus! {

/// An ESP layout built from its root directory, managing `N` paths.
pub trait EspPaths<const N: usize>: Sized {
    /// The ESP root the layout was built from.
    spec fn root(&self) -> Seq<char>;

    /// The managed paths, in enumeration order.
    spec fn managed(&self) -> Seq<Seq<char>>;

    /// The directory holding the NixOS EFI binaries.
    spec fn nixos_dir(&self) -> Seq<char>;

    /// The directory holding the generic Linux EFI binaries.
    spec fn linux_dir(&self) -> Seq<char>;

    /// Build an ESP path structure out of the ESP root directory.
    fn new(esp: &str) -> (r: Self)
        ensures
            r.root() == esp@,
            r.managed().len() == N,
    ;

    /// Return the used file paths to store as garbage collection roots.
    fn iter(&self) -> (r: [&String; N])
        ensures
            forall|i: int| 0 <= i < N ==> #[trigger] r@[i]@ == self.managed()[i],
    ;

    /// Returns the path containing NixOS EFI binaries.
    fn nixos_path(&self) -> (r: &str)
        ensures
            r@ == self.nixos_dir(),
    ;

    /// Returns the path containing Linux EFI binaries.
    fn linux_path(&self) -> (r: &str)
        ensures
            r@ == self.linux_dir(),
    ;
}

} // verus!
