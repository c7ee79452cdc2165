use vstd::prelude::*;

use crate::safeptr::ThreadSafePtr;
use crate::types::{
    code_result, status_result, EfiAddress, EfiEvent, EfiInputKey, EfiStatus, BOOLEAN,
};

verus! {

/// Capacity, in UTF-16 units, of the buffer a string is copied into before it
/// is handed to the console; the terminating zero takes one unit of it.
pub const STACK_BUF_SIZE: usize = 256;

/// The console input protocol table; each service slot holds the address of
/// its entry point.
#[derive(Debug, Copy, Clone)]
pub struct EfiSimpleTextInputProtocol {
    pub reset: EfiAddress,
    pub read_key_stroke: EfiAddress,
    pub wait_for_key: EfiEvent,
}

/// The console output protocol table; each service slot holds the address of
/// its entry point.
#[derive(Debug, Copy, Clone)]
pub struct EfiSimpleTextOutputProtocol {
    pub reset: EfiAddress,
    pub output_string: EfiAddress,
    pub test_string: EfiAddress,
    pub query_mode: EfiAddress,
    pub set_mode: EfiAddress,
    pub set_attribute: EfiAddress,
    pub clear_screen: EfiAddress,
    pub set_cursor_position: EfiAddress,
    pub enable_cursor: EfiAddress,
}

/// The UTF-16 encoding of one character.
pub open spec fn char_utf16(c: char) -> Seq<u16> {
    let v = c as u32;
    if v < 0x10000 {
        seq![v as u16]
    } else {
        seq![(0xD800 + (v - 0x10000) / 0x400) as u16, (0xDC00 + (v - 0x10000) % 0x400) as u16]
    }
}

/// The UTF-16 encoding of a string.
pub open spec fn utf16_of(s: Seq<char>) -> Seq<u16>
    decreases s.len(),
{
    if s.len() == 0 {
        seq![]
    } else {
        utf16_of(s.drop_last()) + char_utf16(s.last())
    }
}

/// The fixed buffer that holds `units`, then zeros up to its capacity (the
/// first of them terminates the string).
pub open spec fn stack_buffer(units: Seq<u16>) -> Seq<u16> {
    Seq::new(STACK_BUF_SIZE as nat, |i: int| if i < units.len() { units[i] } else { 0u16 })
}

/// Whether a string fits the fixed buffer together with its terminator.
pub open spec fn fits_stack_buffer(s: Seq<char>) -> bool {
    utf16_of(s).len() < STACK_BUF_SIZE
}

/// Copies the UTF-16 encoding of `string`, terminated by a zero, into a fixed
/// buffer; fails with `EfiInvalidParameter` when it does not fit.
pub fn fill_stack_buffer(string: &str) -> (r: Result<[u16; STACK_BUF_SIZE], EfiStatus>)
    ensures
        fits_stack_buffer(string@) ==> (r matches Ok(b) && b@ == stack_buffer(utf16_of(string@))),
        !fits_stack_buffer(string@) ==> r == Err::<[u16; STACK_BUF_SIZE], EfiStatus>(
            EfiStatus::EfiInvalidParameter,
        ),
{
    let mut buf = [0u16; STACK_BUF_SIZE];
    let mut idx: usize = 0;
    proof {
        assert(buf@ =~= stack_buffer(utf16_of(string@.take(0))));
    }
    for c in it: string.chars()
        invariant
            it.seq() == string@,
            idx == utf16_of(string@.take(it.index() as int)).len(),
            idx < STACK_BUF_SIZE,
            buf@ == stack_buffer(utf16_of(string@.take(it.index() as int))),
    {
        let ghost i = it.index() as int;
        let ghost done = string@.take(i);
        proof {
            assert(c == string@[i]);
            assert(string@.take(i + 1).drop_last() =~= done);
            lemma_utf16_prefix(string@, i + 1);
            broadcast use vstd::utf8::char_is_scalar;
        }
        let v = c as u32;
        if v < 0x10000 {
            if idx + 1 > STACK_BUF_SIZE - 1 {
                return Err(EfiStatus::EfiInvalidParameter);
            }
            buf[idx] = v as u16;
            proof {
                assert(buf@ =~= stack_buffer(utf16_of(done) + char_utf16(c)));
            }
            idx += 1;
        } else {
            if idx + 2 > STACK_BUF_SIZE - 1 {
                return Err(EfiStatus::EfiInvalidParameter);
            }
            buf[idx] = (0xD800 + (v - 0x10000) / 0x400) as u16;
            buf[idx + 1] = (0xDC00 + (v - 0x10000) % 0x400) as u16;
            proof {
                assert(buf@ =~= stack_buffer(utf16_of(done) + char_utf16(c)));
            }
            idx += 2;
        }
    }
    proof {
        assert(string@.take(string@.len() as int) =~= string@);
        assert(buf@[idx as int] == 0);
    }
    buf[idx] = 0;
    proof {
        assert(buf@ =~= stack_buffer(utf16_of(string@)));
    }
    Ok(buf)
}

/// Encoding distributes over concatenation.
proof fn lemma_utf16_append(a: Seq<char>, b: Seq<char>)
    ensures
        utf16_of(a + b) == utf16_of(a) + utf16_of(b),
    decreases b.len(),
{
    if b.len() == 0 {
        assert(a + b =~= a);
        assert(utf16_of(a) + utf16_of(b) =~= utf16_of(a));
    } else {
        lemma_utf16_append(a, b.drop_last());
        assert((a + b).drop_last() =~= a + b.drop_last());
        assert((a + b).last() == b.last());
        assert(utf16_of(a) + utf16_of(b.drop_last()) + char_utf16(b.last()) =~= utf16_of(a) + (
        utf16_of(b.drop_last()) + char_utf16(b.last())));
    }
}

/// A prefix of a string encodes to no more units than the whole string.
proof fn lemma_utf16_prefix(s: Seq<char>, n: int)
    requires
        0 <= n <= s.len(),
    ensures
        utf16_of(s.take(n)).len() <= utf16_of(s).len(),
{
    lemma_utf16_append(s.take(n), s.skip(n));
    assert(s.take(n) + s.skip(n) =~= s);
}

/// View over the console input protocol.
pub struct SimpleTextInputProtocol {
    protocol: ThreadSafePtr<EfiSimpleTextInputProtocol>,
}

impl SimpleTextInputProtocol {
    /// The address of the protocol table.
    pub closed spec fn addr(&self) -> EfiAddress {
        self.protocol.addr()
    }

    pub fn new(ptr: EfiAddress) -> (r: Self)
        ensures
            r.addr() == ptr,
    {
        SimpleTextInputProtocol { protocol: ThreadSafePtr::new(ptr) }
    }

    pub fn as_ptr(&self) -> (r: EfiAddress)
        ensures
            r == self.addr(),
    {
        self.protocol.as_ptr()
    }

    /// Resets the input device through the protocol's `reset` slot, which
    /// `call` invokes with the protocol's address and returns the status of.
    pub fn reset<F: FnOnce(EfiAddress, BOOLEAN) -> usize>(&self, extended: BOOLEAN, call: F) -> (r:
        Result<(), EfiStatus>)
        requires
            call.requires((self.addr(), extended)),
        ensures
            exists|code: usize|
                call.ensures((self.addr(), extended), code) && r == status_result(
                    EfiStatus::spec_from_code(code),
                ),
    {
        let code = call(self.protocol.as_ptr(), extended);
        code_result(code)
    }

    /// Reads one key stroke through the protocol's `read_key_stroke` slot;
    /// `call` returns the status and the key the firmware wrote.
    pub fn read_key_stroke<F: FnOnce(EfiAddress) -> (usize, EfiInputKey)>(&self, call: F) -> (r:
        Result<EfiInputKey, EfiStatus>)
        requires
            call.requires((self.addr(),)),
        ensures
            exists|code: usize, key: EfiInputKey|
                call.ensures((self.addr(),), (code, key)) && r == (if code == 0 {
                    Ok::<EfiInputKey, EfiStatus>(key)
                } else {
                    Err(EfiStatus::spec_from_code(code))
                }),
    {
        let (code, key) = call(self.protocol.as_ptr());
        let status = EfiStatus::from_code(code);
        if status.is_success() {
            Ok(key)
        } else {
            Err(status)
        }
    }
}

/// View over the console output protocol.
pub struct SimpleTextOutputProtocol {
    protocol: ThreadSafePtr<EfiSimpleTextOutputProtocol>,
}

impl SimpleTextOutputProtocol {
    /// The address of the protocol table.
    pub closed spec fn addr(&self) -> EfiAddress {
        self.protocol.addr()
    }

    pub fn new(ptr: EfiAddress) -> (r: Self)
        ensures
            r.addr() == ptr,
    {
        SimpleTextOutputProtocol { protocol: ThreadSafePtr::new(ptr) }
    }

    pub fn as_ptr(&self) -> (r: EfiAddress)
        ensures
            r == self.addr(),
    {
        self.protocol.as_ptr()
    }

    /// Resets the output device through the protocol's `reset` slot.
    pub fn reset<F: FnOnce(EfiAddress, BOOLEAN) -> usize>(&self, extended: BOOLEAN, call: F) -> (r:
        Result<(), EfiStatus>)
        requires
            call.requires((self.addr(), extended)),
        ensures
            exists|code: usize|
                call.ensures((self.addr(), extended), code) && r == status_result(
                    EfiStatus::spec_from_code(code),
                ),
    {
        let code = call(self.protocol.as_ptr(), extended);
        code_result(code)
    }

    /// Writes `string` to the console through the `output_string` slot. The
    /// string goes over as a zero-terminated UTF-16 buffer of fixed size; one
    /// that does not fit fails with `EfiInvalidParameter` and nothing is called.
    pub fn output_string<F: FnOnce(EfiAddress, [u16; STACK_BUF_SIZE]) -> usize>(
        &self,
        string: &str,
        call: F,
    ) -> (r: Result<(), EfiStatus>)
        requires
            fits_stack_buffer(string@) ==> forall|b: [u16; STACK_BUF_SIZE]|
                b@ == stack_buffer(utf16_of(string@)) ==> call.requires((self.addr(), b)),
        ensures
            !fits_stack_buffer(string@) ==> r == Err::<(), EfiStatus>(
                EfiStatus::EfiInvalidParameter,
            ),
            fits_stack_buffer(string@) ==> exists|b: [u16; STACK_BUF_SIZE], code: usize|
                b@ == stack_buffer(utf16_of(string@)) && call.ensures((self.addr(), b), code)
                    && r == status_result(EfiStatus::spec_from_code(code)),
    {
        match fill_stack_buffer(string) {
            Err(e) => Err(e),
            Ok(buf) => {
                let code = call(self.protocol.as_ptr(), buf);
                code_result(code)
            },
        }
    }

    /// Asks through the `test_string` slot whether the console can display
    /// every character of `string`; the buffer is built as for `output_string`.
    pub fn test_string<F: FnOnce(EfiAddress, [u16; STACK_BUF_SIZE]) -> usize>(
        &self,
        string: &str,
        call: F,
    ) -> (r: Result<(), EfiStatus>)
        requires
            fits_stack_buffer(string@) ==> forall|b: [u16; STACK_BUF_SIZE]|
                b@ == stack_buffer(utf16_of(string@)) ==> call.requires((self.addr(), b)),
        ensures
            !fits_stack_buffer(string@) ==> r == Err::<(), EfiStatus>(
                EfiStatus::EfiInvalidParameter,
            ),
            fits_stack_buffer(string@) ==> exists|b: [u16; STACK_BUF_SIZE], code: usize|
                b@ == stack_buffer(utf16_of(string@)) && call.ensures((self.addr(), b), code)
                    && r == status_result(EfiStatus::spec_from_code(code)),
    {
        match fill_stack_buffer(string) {
            Err(e) => Err(e),
            Ok(buf) => {
                let code = call(self.protocol.as_ptr(), buf);
                code_result(code)
            },
        }
    }
}

} // verus!
