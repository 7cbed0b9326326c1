//! The state of an x86 inline hook and its install/remove decisions.
//!
//! Writing to code memory happens outside this module: each operation is split into a
//! decision (`begin_*`), which says what must be written, and a commit (`finish_*`), which
//! records the outcome of the write.

use vstd::prelude::*;
use crate::error::{HookError, NullPointerSource};
use crate::x86::hookflags::HookFlags;
use crate::x86::jmp::{encode_jmp, jmp_size, lemma_jmp32_lands_on_dst, spec_encode_jmp, spec_jmp_size};

verus! {

/// Where a trampoline lives: the address and size of its executable buffer.
#[derive(Debug, Clone, Copy, PartialEq, Eq, Structural)]
pub struct Trampoline {
    pub addr: usize,
    pub size: usize,
}

/// The abstract state of a hook.
pub struct HookView {
    pub src: usize,
    pub dst: usize,
    pub flags: HookFlags,
    pub saved_bytes: Seq<u8>,
    pub jmp_size: usize,
    pub trampoline: Option<Trampoline>,
    pub trampoline_err: Option<HookError>,
    pub installed: bool,
}

/// An inline hook redirecting the function at `src` to `dst`.
pub struct Hook {
    src: usize,
    dst: usize,
    flags: HookFlags,
    saved_bytes: Vec<u8>,
    jmp_size: usize,
    trampoline: Option<Trampoline>,
    trampoline_err: Option<HookError>,
    installed: bool,
}

impl View for Hook {
    type V = HookView;

    closed spec fn view(&self) -> HookView {
        HookView {
            src: self.src,
            dst: self.dst,
            flags: self.flags,
            saved_bytes: self.saved_bytes@,
            jmp_size: self.jmp_size,
            trampoline: self.trampoline,
            trampoline_err: self.trampoline_err,
            installed: self.installed,
        }
    }
}

/// The error that `Hook::new` reports for the pointers `src` and `dst`, if any.
pub open spec fn pointer_error(src: usize, dst: usize) -> Option<HookError> {
    if src == 0 {
        Some(HookError::NullPointer(NullPointerSource::Src))
    } else if dst == 0 {
        Some(HookError::NullPointer(NullPointerSource::Dst))
    } else {
        None
    }
}

/// The hook that `Hook::new` builds.
pub open spec fn spec_new_hook(
    src: usize,
    dst: usize,
    flags: HookFlags,
    prologue: Seq<u8>,
    trampoline: Result<Trampoline, HookError>,
) -> HookView {
    HookView {
        src,
        dst,
        flags,
        saved_bytes: prologue.subrange(0, spec_jmp_size(flags) as int),
        jmp_size: spec_jmp_size(flags),
        trampoline: match trampoline {
            Ok(t) => Some(t),
            Err(_) => None,
        },
        trampoline_err: match trampoline {
            Ok(_) => None,
            Err(e) => Some(e),
        },
        installed: false,
    }
}

/// Whether a hook state is consistent: its saved bytes are as long as its thunk, its code and
/// trampoline ranges fit in the address space, and it has either a trampoline or the error
/// that building one gave.
pub open spec fn hook_wf(v: HookView) -> bool {
    &&& v.jmp_size == spec_jmp_size(v.flags)
    &&& v.saved_bytes.len() == v.jmp_size
    &&& v.src + v.jmp_size <= usize::MAX
    &&& (v.trampoline matches Some(t) ==> t.addr + t.size <= usize::MAX && t.size >= v.jmp_size)
    &&& (v.trampoline is Some <==> v.trampoline_err is None)
}

/// Checks the pointers of a new hook: neither may be null.
pub fn check_pointers(src: usize, dst: usize) -> (r: Result<(), HookError>)
    ensures
        match pointer_error(src, dst) {
            Some(e) => r == Err::<(), HookError>(e),
            None => r is Ok,
        },
{
    if src == 0 {
        return Err(HookError::NullPointer(NullPointerSource::Src));
    }
    if dst == 0 {
        return Err(HookError::NullPointer(NullPointerSource::Dst));
    }
    Ok(())
}

impl Hook {
    #[verifier::type_invariant]
    spec fn inv(self) -> bool {
        hook_wf(self@)
    }

    /// Creates the hook of the function at `src` redirected to `dst`. `prologue` holds the
    /// function's first bytes (at least as many as the thunk overwrites); `trampoline` is the
    /// outcome of building its trampoline.
    pub fn new(
        src: usize,
        dst: usize,
        flags: HookFlags,
        prologue: &[u8],
        trampoline: Result<Trampoline, HookError>,
    ) -> (r: Result<Hook, HookError>)
        requires
            prologue@.len() >= spec_jmp_size(flags),
            src + spec_jmp_size(flags) <= usize::MAX,
            trampoline matches Ok(t) ==> t.addr + t.size <= usize::MAX && t.size >= spec_jmp_size(
                flags,
            ),
        ensures
            match pointer_error(src, dst) {
                Some(e) => r == Err::<Hook, HookError>(e),
                None => (r matches Ok(h) && h@ == spec_new_hook(src, dst, flags, prologue@, trampoline)
                    && hook_wf(h@)),
            },
    {
        check_pointers(src, dst)?;
        let jmp_size = jmp_size(flags);
        let saved_bytes = vstd::slice::slice_to_vec(&prologue[0..jmp_size]);
        let (trampoline, trampoline_err) = match trampoline {
            Ok(t) => (Some(t), None),
            Err(e) => (None, Some(e)),
        };
        Ok(Hook { src, dst, flags, saved_bytes, jmp_size, trampoline, trampoline_err, installed: false })
    }

    /// Decides an install: the bytes to write over the first `jmp_size()` bytes at `src` (a
    /// jump to `dst`), or why the hook cannot be installed.
    pub fn begin_install(&self) -> (r: Result<Vec<u8>, HookError>)
        ensures
            match r {
                Ok(v) => spec_begin_install(self@) == Ok::<Seq<u8>, HookError>(v@),
                Err(e) => spec_begin_install(self@) == Err::<Seq<u8>, HookError>(e),
            },
            r matches Ok(v) ==> v@.len() == self@.jmp_size,
    {
        proof {
            use_type_invariant(self);
        }
        if self.installed {
            return Err(HookError::AlreadyInstalled);
        }
        encode_jmp(self.src, self.dst, self.flags)
    }

    /// Records the outcome of writing the bytes of `begin_install`; the hook is installed once
    /// they were written.
    pub fn finish_install(&mut self, outcome: Result<(), HookError>) -> (r: Result<(), HookError>)
        ensures
            r == outcome,
            final(self)@ == spec_finish_install(old(self)@, outcome),
    {
        proof {
            use_type_invariant(&*self);
        }
        if outcome.is_ok() {
            self.installed = true;
        }
        outcome
    }

    /// Decides a removal: the original bytes to write back at `src`, or `NotInstalled`.
    pub fn begin_remove(&self) -> (r: Result<Vec<u8>, HookError>)
        ensures
            match r {
                Ok(v) => spec_begin_remove(self@) == Ok::<Seq<u8>, HookError>(v@),
                Err(e) => spec_begin_remove(self@) == Err::<Seq<u8>, HookError>(e),
            },
    {
        if !self.installed {
            return Err(HookError::NotInstalled);
        }
        Ok(self.saved_bytes.clone())
    }

    /// Records the outcome of writing back the bytes of `begin_remove`; the hook is removed
    /// once they were written.
    pub fn finish_remove(&mut self, outcome: Result<(), HookError>) -> (r: Result<(), HookError>)
        ensures
            r == outcome,
            final(self)@ == spec_finish_remove(old(self)@, outcome),
    {
        proof {
            use_type_invariant(&*self);
        }
        if outcome.is_ok() {
            self.installed = false;
        }
        outcome
    }

    /// Installs the hook: the jump thunk to `dst` is handed to `write`, which writes it over the
    /// first `jmp_size()` bytes at `src`, and the hook is installed once that succeeded. An
    /// installed hook, or a thunk that cannot be encoded, gives an error without a write.
    pub fn install<W: FnOnce(Vec<u8>) -> Result<(), HookError>>(&mut self, write: W) -> (r: Result<
        (),
        HookError,
    >)
        requires
            forall|bytes: Vec<u8>| call_requires(write, (bytes,)),
        ensures
            match spec_begin_install(old(self)@) {
                Err(e) => r == Err::<(), HookError>(e) && final(self)@ == old(self)@,
                Ok(patch) => exists|bytes: Vec<u8>|
                    #![trigger call_ensures(write, (bytes,), r)]
                    bytes@ == patch && call_ensures(write, (bytes,), r) && final(self)@
                        == spec_finish_install(old(self)@, r),
            },
    {
        let patch = match self.begin_install() {
            Ok(p) => p,
            Err(e) => return Err(e),
        };
        let outcome = write(patch);
        self.finish_install(outcome)
    }

    /// Removes the hook: the saved original bytes are handed to `write`, which writes them back
    /// at `src`, and the hook is removed once that succeeded. A hook that is not installed gives
    /// `NotInstalled` without a write.
    pub fn remove<W: FnOnce(Vec<u8>) -> Result<(), HookError>>(&mut self, write: W) -> (r: Result<
        (),
        HookError,
    >)
        requires
            forall|bytes: Vec<u8>| call_requires(write, (bytes,)),
        ensures
            match spec_begin_remove(old(self)@) {
                Err(e) => r == Err::<(), HookError>(e) && final(self)@ == old(self)@,
                Ok(original) => exists|bytes: Vec<u8>|
                    #![trigger call_ensures(write, (bytes,), r)]
                    bytes@ == original && call_ensures(write, (bytes,), r) && final(self)@
                        == spec_finish_remove(old(self)@, r),
            },
    {
        let original = match self.begin_remove() {
            Ok(o) => o,
            Err(e) => return Err(e),
        };
        let outcome = write(original);
        self.finish_remove(outcome)
    }

    /// Checks that the hook can be installed while other threads are suspended: it must not be
    /// installed yet and must have a trampoline to move those threads to.
    pub fn check_install_with_threads(&self) -> (r: Result<(), HookError>)
        ensures
            self@.installed ==> r == Err::<(), HookError>(HookError::AlreadyInstalled),
            !self@.installed && self@.trampoline is None ==> r == Err::<(), HookError>(
                HookError::NoTrampoline,
            ),
            !self@.installed && self@.trampoline is Some ==> r is Ok,
    {
        if self.installed {
            return Err(HookError::AlreadyInstalled);
        }
        if self.trampoline.is_none() {
            return Err(HookError::NoTrampoline);
        }
        Ok(())
    }

    /// Where a suspended thread stopped at `ip` must resume once the thunk was written: inside
    /// the overwritten bytes it moves to the same offset in the trampoline, elsewhere it stays.
    pub fn ip_after_install(&self, ip: usize) -> (r: Option<usize>)
        ensures
            r == spec_ip_after_install(self@, ip),
    {
        proof {
            use_type_invariant(self);
        }
        match self.trampoline {
            Some(t) => {
                if ip >= self.src && ip - self.src < self.jmp_size {
                    Some(t.addr + (ip - self.src))
                } else {
                    None
                }
            },
            None => None,
        }
    }

    /// Where a suspended thread stopped at `ip` must resume once the original bytes were
    /// written back: inside the trampoline's first `jmp_size` bytes it moves to the same offset
    /// in the original function, elsewhere it stays.
    pub fn ip_after_remove(&self, ip: usize) -> (r: Option<usize>)
        ensures
            r == spec_ip_after_remove(self@, ip),
    {
        proof {
            use_type_invariant(self);
        }
        match self.trampoline {
            Some(t) => {
                if ip >= t.addr && ip - t.addr < self.jmp_size {
                    Some(self.src + (ip - t.addr))
                } else {
                    None
                }
            },
            None => None,
        }
    }

    /// Returns `true` if the hook is currently installed.
    pub fn is_installed(&self) -> (r: bool)
        ensures
            r == self@.installed,
    {
        self.installed
    }

    /// The address of the trampoline, or `None` if it could not be built. Call through it to
    /// invoke the original function while the hook is installed.
    pub fn trampoline(&self) -> (r: Option<usize>)
        ensures
            r == (match self@.trampoline {
                Some(t) => Some(t.addr),
                None => None,
            }),
    {
        match self.trampoline {
            Some(t) => Some(t.addr),
            None => None,
        }
    }

    /// Where the trampoline buffer lives, so that it can be released.
    pub fn trampoline_buffer(&self) -> (r: Option<Trampoline>)
        ensures
            r == self@.trampoline,
    {
        self.trampoline
    }

    /// The error from building the trampoline, if that failed; it tells why `trampoline()` is
    /// `None`.
    pub fn trampoline_error(&self) -> (r: Option<&HookError>)
        ensures
            r == (match self@.trampoline_err {
                Some(e) => Some(&e),
                None => None,
            }),
            r is Some <==> self@.trampoline is None,
    {
        proof {
            use_type_invariant(self);
        }
        match &self.trampoline_err {
            Some(e) => Some(e),
            None => None,
        }
    }

    /// The first `current.len()` bytes of the hooked function's original prologue, `current`
    /// holding the bytes now at `src`: the bytes the thunk overwrites are the saved ones, the
    /// rest are as they are now.
    pub fn original_prologue(&self, current: &[u8]) -> (r: Vec<u8>)
        ensures
            r@ == (if current@.len() <= self@.jmp_size {
                self@.saved_bytes.subrange(0, current@.len() as int)
            } else {
                self@.saved_bytes + current@.subrange(self@.jmp_size as int, current@.len() as int)
            }),
    {
        proof {
            use_type_invariant(self);
        }
        let n = current.len();
        let mut out: Vec<u8> = Vec::new();
        let mut i: usize = 0;
        while i < n
            invariant
                i <= n,
                n == current@.len(),
                self.saved_bytes@.len() == self.jmp_size,
                out@ =~= (if i <= self.jmp_size {
                    self.saved_bytes@.subrange(0, i as int)
                } else {
                    self.saved_bytes@ + current@.subrange(self.jmp_size as int, i as int)
                }),
            decreases n - i,
        {
            if i < self.jmp_size {
                out.push(self.saved_bytes[i]);
            } else {
                out.push(current[i]);
            }
            i = i + 1;
        }
        out
    }

    /// The hooked function.
    pub fn src(&self) -> (r: usize)
        ensures
            r == self@.src,
    {
        self.src
    }

    /// The function calls are redirected to.
    pub fn dst(&self) -> (r: usize)
        ensures
            r == self@.dst,
    {
        self.dst
    }

    /// Number of bytes the thunk overwrites at `src`.
    pub fn jmp_size(&self) -> (r: usize)
        ensures
            r == self@.jmp_size,
    {
        self.jmp_size
    }
}

/// What `Hook::begin_install` decides: `AlreadyInstalled`, or the jump thunk to write at
/// `src`.
pub open spec fn spec_begin_install(v: HookView) -> Result<Seq<u8>, HookError> {
    if v.installed {
        Err(HookError::AlreadyInstalled)
    } else {
        spec_encode_jmp(v.src, v.dst, v.flags)
    }
}

/// The state after `Hook::finish_install` with `outcome`.
pub open spec fn spec_finish_install(v: HookView, outcome: Result<(), HookError>) -> HookView {
    HookView { installed: v.installed || outcome is Ok, ..v }
}

/// What `Hook::begin_remove` decides: `NotInstalled`, or the saved bytes to write back.
pub open spec fn spec_begin_remove(v: HookView) -> Result<Seq<u8>, HookError> {
    if v.installed {
        Ok(v.saved_bytes)
    } else {
        Err(HookError::NotInstalled)
    }
}

/// The state after `Hook::finish_remove` with `outcome`.
pub open spec fn spec_finish_remove(v: HookView, outcome: Result<(), HookError>) -> HookView {
    HookView { installed: v.installed && outcome is Err, ..v }
}

/// See `Hook::ip_after_install`.
pub open spec fn spec_ip_after_install(v: HookView, ip: usize) -> Option<usize> {
    match v.trampoline {
        Some(t) => if v.src <= ip < v.src + v.jmp_size {
            Some((t.addr + (ip - v.src)) as usize)
        } else {
            None
        },
        None => None,
    }
}

/// See `Hook::ip_after_remove`.
pub open spec fn spec_ip_after_remove(v: HookView, ip: usize) -> Option<usize> {
    match v.trampoline {
        Some(t) => if t.addr <= ip < t.addr + v.jmp_size {
            Some((v.src + (ip - t.addr)) as usize)
        } else {
            None
        },
        None => None,
    }
}

/// A hook that was just created is not installed: removing it fails with `NotInstalled`, and
/// installing it writes the jump thunk to `dst`.
pub proof fn lemma_new_hook_not_installed(
    src: usize,
    dst: usize,
    flags: HookFlags,
    prologue: Seq<u8>,
    trampoline: Result<Trampoline, HookError>,
)
    ensures
        spec_begin_remove(spec_new_hook(src, dst, flags, prologue, trampoline)) == Err::<
            Seq<u8>,
            HookError,
        >(HookError::NotInstalled),
        spec_begin_install(spec_new_hook(src, dst, flags, prologue, trampoline)) == spec_encode_jmp(
            src,
            dst,
            flags,
        ),
{
}

/// Installing an installed hook fails with `AlreadyInstalled`, and so does every later install
/// until it is removed.
pub proof fn lemma_install_twice(v: HookView)
    ensures
        spec_begin_install(spec_finish_install(v, Ok(()))) == Err::<Seq<u8>, HookError>(
            HookError::AlreadyInstalled,
        ),
{
}

/// Removing undoes installing: the thunk that an install writes covers exactly the bytes saved
/// for removal, after a successful install removal writes those saved original bytes back, and
/// once they are written the hook is in its state from before the install.
pub proof fn lemma_install_remove_roundtrip(v: HookView)
    requires
        !v.installed,
        hook_wf(v),
    ensures
        spec_begin_install(v) matches Ok(patch) ==> patch.len() == v.saved_bytes.len(),
        spec_begin_remove(spec_finish_install(v, Ok(()))) == Ok::<Seq<u8>, HookError>(
            v.saved_bytes,
        ),
        spec_finish_remove(spec_finish_install(v, Ok(())), Ok(())) == v,
{
    lemma_jmp32_lands_on_dst(v.src, v.dst);
}

/// Reinstalling undoes removing, as a scoped removal does: a removed hook writes its jump
/// thunk again when installed, and once it is written the hook is in its state from before the
/// removal.
pub proof fn lemma_remove_install_roundtrip(v: HookView)
    requires
        v.installed,
    ensures
        spec_begin_install(spec_finish_remove(v, Ok(()))) == spec_encode_jmp(v.src, v.dst, v.flags),
        spec_finish_install(spec_finish_remove(v, Ok(())), Ok(())) == v,
{
}

/// A hook keeps the function it hooks and the one it redirects to: installing and removing
/// change neither `src` nor `dst`, whatever the outcome of the write.
pub proof fn lemma_addresses_kept(v: HookView, outcome: Result<(), HookError>)
    ensures
        spec_finish_install(v, outcome).src == v.src,
        spec_finish_install(v, outcome).dst == v.dst,
        spec_finish_remove(v, outcome).src == v.src,
        spec_finish_remove(v, outcome).dst == v.dst,
{
}

/// A failed write leaves the hook as it was.
pub proof fn lemma_failed_write_keeps_state(v: HookView, e: HookError)
    ensures
        spec_finish_install(v, Err(e)) == v,
        spec_finish_remove(v, Err(e)) == v,
{
}

/// The thread moves of a removal undo those of an install: a thread moved from the hooked
/// prologue into the trampoline is moved back to where it was, and conversely.
pub proof fn lemma_ip_remap_roundtrip(v: HookView, ip: usize)
    requires
        hook_wf(v),
    ensures
        spec_ip_after_install(v, ip) matches Some(ip2) ==> spec_ip_after_remove(v, ip2) == Some(ip),
        spec_ip_after_remove(v, ip) matches Some(ip2) ==> spec_ip_after_install(v, ip2) == Some(ip),
{
}

/// A thread moved by an install or a removal keeps its offset: a thread stopped `k` bytes into
/// the overwritten prologue resumes `k` bytes into the trampoline, where the same instruction
/// was copied, and a thread `k` bytes into the trampoline's copy resumes `k` bytes into the
/// restored prologue. Threads anywhere else, or any thread when there is no trampoline, stay.
pub proof fn lemma_ip_keeps_offset(v: HookView, ip: usize)
    requires
        hook_wf(v),
    ensures
        v.trampoline matches Some(t) ==> (v.src <= ip < v.src + v.jmp_size ==> (
        spec_ip_after_install(v, ip) matches Some(r) && r - t.addr == ip - v.src)),
        v.trampoline matches Some(t) ==> (t.addr <= ip < t.addr + v.jmp_size ==> (
        spec_ip_after_remove(v, ip) matches Some(r) && r - v.src == ip - t.addr)),
        !(v.trampoline is Some && v.src <= ip < v.src + v.jmp_size) ==> spec_ip_after_install(v, ip)
            is None,
        !(v.trampoline matches Some(t) && t.addr <= ip < t.addr + v.jmp_size)
            ==> spec_ip_after_remove(v, ip) is None,
{
}

} // verus!
