//! Access sets and the native page protections they become.
use vstd::prelude::*;

verus! {

/// A set of access permissions over {read, write, execute}. The empty set
/// is the "no access" value.
#[derive(Clone, Copy, Debug, PartialEq, Eq, Structural)]
pub struct Access {
    pub read: bool,
    pub write: bool,
    pub execute: bool,
}

/// What a page of a mapping lets through, after the rules that turn an
/// access set into something the hardware offers have been applied.
#[derive(Clone, Copy, Debug, PartialEq, Eq, Structural)]
pub struct PageProtection {
    pub read: bool,
    pub write: bool,
    pub execute: bool,
}

/// How a view holds its snapshot's memory.
#[derive(Clone, Copy, Debug, PartialEq, Eq, Structural)]
pub enum ViewMode {
    /// A private copy-on-write mapping: writes stay in the view.
    Cow,
    /// A shared mapping: writes reach the snapshot's memory object.
    Mutable,
}

/// Whether a mapping is private to the view or shared with the memory object.
#[derive(Clone, Copy, Debug, PartialEq, Eq, Structural)]
pub enum Sharing {
    Private,
    Shared,
}

/// The page protection constants of the Windows memory API.
#[derive(Clone, Copy, Debug, PartialEq, Eq, Structural)]
pub enum WinProtection {
    NoAccess,
    ReadOnly,
    ReadWrite,
    WriteCopy,
    Execute,
    ExecuteRead,
    ExecuteReadWrite,
    ExecuteWriteCopy,
}

impl Access {
    pub open spec fn is_none_spec(self) -> bool {
        !self.read && !self.write && !self.execute
    }

    /// No access at all.
    pub fn none() -> (r: Access)
        ensures
            r.is_none_spec(),
    {
        Access { read: false, write: false, execute: false }
    }

    /// Read access alone.
    pub fn read() -> (r: Access)
        ensures
            r.read && !r.write && !r.execute,
    {
        Access { read: true, write: false, execute: false }
    }

    /// Write access, which always brings read access with it.
    pub fn write() -> (r: Access)
        ensures
            !r.read && r.write && !r.execute,
    {
        Access { read: false, write: true, execute: false }
    }

    /// Execute access.
    pub fn execute() -> (r: Access)
        ensures
            !r.read && !r.write && r.execute,
    {
        Access { read: false, write: false, execute: true }
    }

    /// The permissions of both sets.
    pub fn union(self, other: Access) -> (r: Access)
        ensures
            r.read == (self.read || other.read),
            r.write == (self.write || other.write),
            r.execute == (self.execute || other.execute),
    {
        Access {
            read: self.read || other.read,
            write: self.write || other.write,
            execute: self.execute || other.execute,
        }
    }

    /// Whether every permission of `other` is in this set.
    pub fn contains(self, other: Access) -> (r: bool)
        ensures
            r == ((other.read ==> self.read) && (other.write ==> self.write)
                && (other.execute ==> self.execute)),
    {
        (self.read || !other.read) && (self.write || !other.write) && (self.execute || !other.execute)
    }

    /// Whether this is the empty set.
    pub fn is_none(self) -> (r: bool)
        ensures
            r == self.is_none_spec(),
    {
        !self.read && !self.write && !self.execute
    }

    /// The protection that a page granted this set gets: write brings read
    /// with it, and the empty set gives a page that can be neither read
    /// nor written.
    pub open spec fn protection_spec(self) -> PageProtection {
        PageProtection { read: self.read || self.write, write: self.write, execute: self.execute }
    }

    /// The page protection that grants this set.
    pub fn protection(self) -> (r: PageProtection)
        ensures
            r == self.protection_spec(),
            r.write ==> r.read,
            self.is_none_spec() ==> !r.read && !r.write && !r.execute,
            !self.is_none_spec() ==> (r.read || r.execute),
    {
        if self.is_none() {
            PageProtection::no_access()
        } else {
            PageProtection {
                read: self.read || self.write,
                write: self.write,
                execute: self.execute,
            }
        }
    }

    /// The Windows protection constant that grants this set on a view of
    /// the given mode.
    pub fn as_winapi(self, mode: ViewMode) -> (r: WinProtection)
        ensures
            r == self.protection_spec().win_spec(mode),
    {
        self.protection().as_winapi(mode)
    }
}

impl PageProtection {
    /// A page that can be neither read, written nor executed.
    pub fn no_access() -> (r: PageProtection)
        ensures
            !r.read && !r.write && !r.execute,
    {
        PageProtection { read: false, write: false, execute: false }
    }

    /// The protection that every page of a fresh mapping starts with.
    pub fn read_write() -> (r: PageProtection)
        ensures
            r.read && r.write && !r.execute,
    {
        PageProtection { read: true, write: true, execute: false }
    }

    /// The Windows constant for this protection. A writable page of a
    /// copy-on-write view takes a write-copy constant, so that writes stay
    /// private to the view.
    pub open spec fn win_spec(self, mode: ViewMode) -> WinProtection {
        if !self.execute {
            if self.write {
                if mode == ViewMode::Mutable { WinProtection::ReadWrite } else { WinProtection::WriteCopy }
            } else if self.read {
                WinProtection::ReadOnly
            } else {
                WinProtection::NoAccess
            }
        } else {
            if self.write {
                if mode == ViewMode::Mutable {
                    WinProtection::ExecuteReadWrite
                } else {
                    WinProtection::ExecuteWriteCopy
                }
            } else if self.read {
                WinProtection::ExecuteRead
            } else {
                WinProtection::Execute
            }
        }
    }

    /// The Windows constant for this protection on a view of the given mode.
    pub fn as_winapi(self, mode: ViewMode) -> (r: WinProtection)
        ensures
            r == self.win_spec(mode),
    {
        let mutable = mode == ViewMode::Mutable;
        match (self.read, self.write, self.execute, mutable) {
            (_, true, true, true) => WinProtection::ExecuteReadWrite,
            (_, true, true, false) => WinProtection::ExecuteWriteCopy,
            (true, _, true, _) => WinProtection::ExecuteRead,
            (_, _, true, _) => WinProtection::Execute,
            (_, true, false, true) => WinProtection::ReadWrite,
            (_, true, false, false) => WinProtection::WriteCopy,
            (true, _, false, _) => WinProtection::ReadOnly,
            (_, _, false, _) => WinProtection::NoAccess,
        }
    }
}

impl ViewMode {
    pub open spec fn sharing_spec(self) -> Sharing {
        match self {
            ViewMode::Cow => Sharing::Private,
            ViewMode::Mutable => Sharing::Shared,
        }
    }

    /// The kind of mapping a view of this mode is made of: private for a
    /// copy-on-write view, shared for a mutable one.
    pub fn sharing(self) -> (r: Sharing)
        ensures
            r == self.sharing_spec(),
    {
        match self {
            ViewMode::Cow => Sharing::Private,
            ViewMode::Mutable => Sharing::Shared,
        }
    }

    /// The Windows constant that a whole view of this mode is mapped with:
    /// the one for read and write access on a view of this mode.
    pub fn as_winapi(self) -> (r: WinProtection)
        ensures
            r == (PageProtection { read: true, write: true, execute: false }).win_spec(self),
    {
        match self {
            ViewMode::Cow => WinProtection::WriteCopy,
            ViewMode::Mutable => WinProtection::ReadWrite,
        }
    }
}

} // verus!
