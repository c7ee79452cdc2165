//! Safe handles over the service tables that UEFI firmware hands to a program
//! at its entry point: the one-time initialization protocol that captures the
//! root table, views over boot, run-time and console services, lazy console
//! discovery, and the decisions of an allocator built on the firmware pool.
//!
//! Addresses are plain `usize` values (zero is null). Each firmware call is
//! made by a closure that the caller supplies; the library decides whether and
//! with what arguments it is made, and what its reply means.

pub mod allocator;
pub mod console;
pub mod global;
pub mod safeptr;
pub mod tables;
pub mod types;

use vstd::prelude::*;

use crate::console::{SimpleTextInputProtocol, SimpleTextOutputProtocol};
use crate::global::EfiGlobal;
use crate::tables::{BootServices, EfiSystemTable, RuntimeServices, SystemTable};
use crate::types::EfiAddress;

verus! {

#[derive(Debug, Copy, Clone, PartialEq, Eq, Structural)]
pub enum EfiInitError {
    AlreadyInitialized,
    InvalidArgument,
}

/// What the process-wide state amounts to: whether initialization has
/// happened, the addresses it published, and the console protocols resolved
/// so far.
#[derive(Debug, Copy, Clone, PartialEq, Eq, Structural)]
pub struct LibState {
    pub initialized: bool,
    pub system_table: Option<EfiAddress>,
    pub boot_services: Option<EfiAddress>,
    pub runtime_services: Option<EfiAddress>,
    pub con_in: Option<EfiAddress>,
    pub con_out: Option<EfiAddress>,
}

/// Whether a root table can be published: it exists and names both the boot
/// and the run-time services table.
pub open spec fn root_is_valid(system_table: EfiAddress, root: EfiSystemTable) -> bool {
    system_table != 0 && root.boot_services != 0 && root.runtime_services != 0
}

/// One initialization attempt, on the state `s`, with the root table at
/// `system_table` whose contents are `root`: the state after it and what it
/// returns.
pub open spec fn init_step(s: LibState, system_table: EfiAddress, root: EfiSystemTable) -> (
    LibState,
    Result<(), EfiInitError>,
) {
    if s.initialized {
        (s, Err(EfiInitError::AlreadyInitialized))
    } else if !root_is_valid(system_table, root) {
        (s, Err(EfiInitError::InvalidArgument))
    } else {
        (
            LibState {
                initialized: true,
                system_table: Some(system_table),
                boot_services: Some(root.boot_services),
                runtime_services: Some(root.runtime_services),
                con_in: None,
                con_out: None,
            },
            Ok(()),
        )
    }
}

/// One access to a lazily resolved console: the cached address stays, and an
/// empty cache takes the address that resolution found.
pub open spec fn console_step(cache: Option<EfiAddress>, resolved: EfiAddress) -> Option<
    EfiAddress,
> {
    match cache {
        Some(p) => Some(p),
        None => Some(resolved),
    }
}

/// The process-wide state: the initialization flag and the published views.
pub struct EfiLib {
    initialized: bool,
    system_table: Option<SystemTable>,
    boot_services: EfiGlobal,
    runtime_services: EfiGlobal,
}

impl View for EfiLib {
    type V = LibState;

    closed spec fn view(&self) -> LibState {
        LibState {
            initialized: self.initialized,
            system_table: match self.system_table {
                Some(t) => Some(t.addr()),
                None => None,
            },
            boot_services: self.boot_services@,
            runtime_services: self.runtime_services@,
            con_in: match self.system_table {
                Some(t) => t.con_in@,
                None => None,
            },
            con_out: match self.system_table {
                Some(t) => t.con_out@,
                None => None,
            },
        }
    }
}

impl EfiLib {
    /// Either nothing is published, or all three views are, over non-null
    /// tables.
    pub closed spec fn wf(&self) -> bool {
        &&& self.initialized == self.system_table is Some
        &&& self.initialized == self.boot_services@ is Some
        &&& self.initialized == self.runtime_services@ is Some
        &&& self.system_table matches Some(t) ==> t.addr() != 0
        &&& self.boot_services@ matches Some(p) ==> p != 0
        &&& self.runtime_services@ matches Some(p) ==> p != 0
        &&& self.system_table is None ==> self@.con_in is None && self@.con_out is None
    }

    /// The state at program start: nothing published.
    pub fn new() -> (r: Self)
        ensures
            r.wf(),
            r@ == (LibState {
                initialized: false,
                system_table: None,
                boot_services: None,
                runtime_services: None,
                con_in: None,
                con_out: None,
            }),
    {
        EfiLib {
            initialized: false,
            system_table: None,
            boot_services: EfiGlobal::new(),
            runtime_services: EfiGlobal::new(),
        }
    }

    /// Whether initialization has happened. In a well-formed state, before it
    /// nothing is published, and after it all three views are.
    pub fn is_initialized(&self) -> (r: bool)
        ensures
            r == self@.initialized,
            self.wf() && !r ==> self@.system_table is None && self@.boot_services is None
                && self@.runtime_services is None && self@.con_in is None && self@.con_out is None,
            self.wf() && r ==> (self@.system_table matches Some(t) && t != 0) && (
            self@.boot_services matches Some(b) && b != 0) && (self@.runtime_services matches Some(
                u,
            ) && u != 0),
    {
        self.initialized
    }

    /// The published root table view; only after initialization.
    pub fn system_table(&self) -> (r: &SystemTable)
        requires
            self.wf(),
            self@.initialized,
        ensures
            self@.system_table == Some(r.addr()),
            self@.con_in == r.con_in@,
            self@.con_out == r.con_out@,
    {
        self.system_table.as_ref().unwrap()
    }

    /// The published boot services view; only after initialization.
    pub fn boot_services(&self) -> (r: BootServices)
        requires
            self.wf(),
            self@.initialized,
        ensures
            self@.boot_services == Some(r.addr()),
            r.addr() != 0,
    {
        BootServices::new(self.boot_services.get().unwrap())
    }

    /// The boot services view if initialization has happened, else `None`.
    pub fn try_boot_services(&self) -> (r: Option<BootServices>)
        requires
            self.wf(),
        ensures
            self@.initialized ==> (r matches Some(v) && self@.boot_services == Some(v.addr())),
            !self@.initialized ==> r is None,
    {
        match self.boot_services.get() {
            Some(p) => Some(BootServices::new(p)),
            None => None,
        }
    }

    /// The published run-time services view; only after initialization.
    pub fn runtime_services(&self) -> (r: RuntimeServices)
        requires
            self.wf(),
            self@.initialized,
        ensures
            self@.runtime_services == Some(r.addr()),
            r.addr() != 0,
    {
        RuntimeServices::new(self.runtime_services.get().unwrap()).unwrap()
    }

    /// The console input protocol of the published root table, resolved on
    /// first access (see `SystemTable::con_in`); only after initialization.
    pub fn con_in<F: FnOnce(EfiAddress) -> EfiAddress>(&mut self, resolve: F) -> (r: Option<
        SimpleTextInputProtocol,
    >)
        requires
            old(self).wf(),
            old(self)@.initialized,
            old(self)@.con_in is None ==> resolve.requires((old(self)@.system_table->0,)),
        ensures
            final(self).wf(),
            old(self)@.con_in is Some ==> *final(self) == *old(self),
            old(self)@.con_in is None ==> (exists|p: EfiAddress|
                resolve.ensures((old(self)@.system_table->0,), p) && final(self)@ == (LibState {
                    con_in: console_step(old(self)@.con_in, p),
                    ..old(self)@
                })),
            final(self)@.con_in matches Some(p) && (p == 0 ==> r is None) && (p != 0 ==> (
            r matches Some(v) && v.addr() == p)),
    {
        let mut st = self.system_table.take().unwrap();
        let r = st.con_in(resolve);
        self.system_table = Some(st);
        r
    }

    /// The console output protocol of the published root table, resolved on
    /// first access (see `SystemTable::con_out`); only after initialization.
    pub fn con_out<F: FnOnce(EfiAddress) -> EfiAddress>(&mut self, resolve: F) -> (r: Option<
        SimpleTextOutputProtocol,
    >)
        requires
            old(self).wf(),
            old(self)@.initialized,
            old(self)@.con_out is None ==> resolve.requires((old(self)@.system_table->0,)),
        ensures
            final(self).wf(),
            old(self)@.con_out is Some ==> *final(self) == *old(self),
            old(self)@.con_out is None ==> (exists|p: EfiAddress|
                resolve.ensures((old(self)@.system_table->0,), p) && final(self)@ == (LibState {
                    con_out: console_step(old(self)@.con_out, p),
                    ..old(self)@
                })),
            final(self)@.con_out matches Some(p) && (p == 0 ==> r is None) && (p != 0 ==> (
            r matches Some(v) && v.addr() == p)),
    {
        let mut st = self.system_table.take().unwrap();
        let r = st.con_out(resolve);
        self.system_table = Some(st);
        r
    }
}

/// Captures the root table at `system_table` and publishes the views over it,
/// once. `read_root` reads the root table's contents at the address it is
/// given; it is called only for a first attempt with a non-null address.
pub fn init_efilib<F: FnOnce(EfiAddress) -> EfiSystemTable>(
    lib: &mut EfiLib,
    system_table: EfiAddress,
    read_root: F,
) -> (r: Result<(), EfiInitError>)
    requires
        old(lib).wf(),
        !old(lib)@.initialized && system_table != 0 ==> read_root.requires((system_table,)),
    ensures
        final(lib).wf(),
        old(lib)@.initialized ==> r == Err::<(), EfiInitError>(EfiInitError::AlreadyInitialized),
        !old(lib)@.initialized && system_table == 0 ==> r == Err::<(), EfiInitError>(
            EfiInitError::InvalidArgument,
        ),
        old(lib)@.initialized || system_table == 0 ==> *final(lib) == *old(lib),
        !old(lib)@.initialized && system_table != 0 ==> (exists|root: EfiSystemTable|
            read_root.ensures((system_table,), root) && (final(lib)@, r) == init_step(
                old(lib)@,
                system_table,
                root,
            )),
        r is Err ==> *final(lib) == *old(lib),
{
    if lib.initialized {
        return Err(EfiInitError::AlreadyInitialized);
    }
    if system_table == 0 {
        return Err(EfiInitError::InvalidArgument);
    }
    let ghost s0 = lib@;
    let root = read_root(system_table);
    if root.boot_services == 0 || root.runtime_services == 0 {
        proof {
            assert((lib@, Err::<(), EfiInitError>(EfiInitError::InvalidArgument)) == init_step(
                s0,
                system_table,
                root,
            ));
        }
        return Err(EfiInitError::InvalidArgument);
    }
    lib.system_table = Some(SystemTable::new(system_table));
    lib.boot_services.init(root.boot_services);
    lib.runtime_services.init(root.runtime_services);
    lib.initialized = true;
    proof {
        assert((lib@, Ok::<(), EfiInitError>(())) == init_step(s0, system_table, root));
    }
    Ok(())
}

/// Once a first attempt has left the state initialized (in particular, once
/// one has succeeded), a second attempt, with any arguments, fails with
/// `AlreadyInitialized` and leaves the state as the first left it.
pub proof fn lemma_second_init_fails(
    s: LibState,
    system_table1: EfiAddress,
    root1: EfiSystemTable,
    system_table2: EfiAddress,
    root2: EfiSystemTable,
)
    ensures
        init_step(s, system_table1, root1).1 is Ok ==> init_step(s, system_table1, root1).0.initialized,
        init_step(s, system_table1, root1).0.initialized ==> init_step(
            init_step(s, system_table1, root1).0,
            system_table2,
            root2,
        ) == (init_step(s, system_table1, root1).0, Err::<(), EfiInitError>(
            EfiInitError::AlreadyInitialized,
        )),
{
}

/// A first attempt with a null root table, or with a root table whose boot or
/// run-time services pointer is null, fails with `InvalidArgument` and leaves
/// the state uninitialized.
pub proof fn lemma_invalid_root_rejected(s: LibState, system_table: EfiAddress, root: EfiSystemTable)
    requires
        !s.initialized,
        system_table == 0 || root.boot_services == 0 || root.runtime_services == 0,
    ensures
        init_step(s, system_table, root) == (s, Err::<(), EfiInitError>(
            EfiInitError::InvalidArgument,
        )),
        !init_step(s, system_table, root).0.initialized,
{
}

/// A first attempt with a valid root table succeeds and publishes exactly the
/// root table and the two services tables it names, with no console resolved.
pub proof fn lemma_valid_root_published(s: LibState, system_table: EfiAddress, root: EfiSystemTable)
    requires
        !s.initialized,
        root_is_valid(system_table, root),
    ensures
        init_step(s, system_table, root).1 is Ok,
        init_step(s, system_table, root).0.initialized,
        init_step(s, system_table, root).0.system_table == Some(system_table),
        init_step(s, system_table, root).0.boot_services == Some(root.boot_services),
        init_step(s, system_table, root).0.runtime_services == Some(root.runtime_services),
        init_step(s, system_table, root).0.con_in is None,
        init_step(s, system_table, root).0.con_out is None,
{
}

/// A console is resolved at most once: after one access the cache holds an
/// address, and every later access keeps it, whatever resolution would find.
pub proof fn lemma_console_resolved_once(cache: Option<EfiAddress>, first: EfiAddress, later: EfiAddress)
    ensures
        console_step(cache, first) is Some,
        console_step(console_step(cache, first), later) == console_step(cache, first),
        cache matches Some(p) ==> console_step(cache, first) == Some(p),
{
}

} // verus!
