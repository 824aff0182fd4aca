//! The legacy function-id table and its text helpers: a sixteen-slot
//! name/color lookup, a palindrome repeater, an XOR obfuscator, and the
//! backslash escaping/unescaping pair used for wire-framing path strings.

use vstd::prelude::*;
use vstd::string::StringSliceAdditionalSpecFns;

use crate::entropy::HIGH_FOCUS;
use crate::text::push_char;
use crate::text::spec_split_char;
use crate::text::split_char;
use crate::text::str_eq;

verus! {

/// The name of each slot of the legacy table; unassigned slots are empty.
pub open spec fn spec_func_name(i: int) -> Seq<char> {
    if i == 0 {
        "stop"@
    } else if i == 1 {
        "limit"@
    } else if i == 2 {
        "arbitrage"@
    } else if i == 3 {
        "kappa"@
    } else if i == 4 {
        "market"@
    } else if i == 5 {
        "sell"@
    } else {
        Seq::<char>::empty()
    }
}

/// The display color of each slot of the legacy table.
pub open spec fn spec_func_color(i: int) -> Seq<char> {
    if i == 0 {
        "#ff0000"@
    } else if i == 1 {
        "#8b4513"@
    } else if i == 2 {
        "#ffbf00"@
    } else if i == 3 {
        "#ffffff"@
    } else if i == 4 {
        "#00ffff"@
    } else if i == 5 {
        "#00ff00"@
    } else {
        Seq::<char>::empty()
    }
}

/// The legacy sixteen-slot function-id table.
pub struct FuncId {
    pub registry: Vec<String>,
    pub colors: Vec<String>,
}

/// The table holds its sixteen legacy names and colors.
pub open spec fn funcid_wf(f: FuncId) -> bool {
    &&& f.registry.len() == 16
    &&& f.colors.len() == 16
    &&& forall|i: int| 0 <= i < 16 ==> (#[trigger] f.registry@[i])@ == spec_func_name(i)
    &&& forall|i: int| 0 <= i < 16 ==> (#[trigger] f.colors@[i])@ == spec_func_color(i)
}

/// One escaped character: a path separator is wrapped in backslashes and a
/// literal backslash is doubled; everything else passes through.
pub open spec fn spec_escape_char(c: char) -> Seq<char> {
    if c == '/' {
        seq!['\\', '/', '\\']
    } else if c == '\\' {
        seq!['\\', '\\']
    } else {
        seq![c]
    }
}

/// The backslash-escaped form of a string.
pub open spec fn spec_escape(s: Seq<char>) -> Seq<char>
    decreases s.len(),
{
    if s.len() == 0 {
        Seq::<char>::empty()
    } else {
        spec_escape_char(s[0]) + spec_escape(s.drop_first())
    }
}

/// The chunks that are not a lone separator, read from the last chunk
/// backwards.
pub open spec fn spec_keep_rev(chunks: Seq<Seq<char>>) -> Seq<Seq<char>>
    decreases chunks.len(),
{
    if chunks.len() == 0 {
        Seq::<Seq<char>>::empty()
    } else if chunks.last() == seq!['/'] {
        spec_keep_rev(chunks.drop_last())
    } else {
        seq![chunks.last()] + spec_keep_rev(chunks.drop_last())
    }
}

/// The backslash-delimited chunks of a string, read from the end, with the
/// lone-separator chunks dropped.
pub open spec fn spec_backwards(s: Seq<char>) -> Seq<Seq<char>> {
    spec_keep_rev(spec_split_char(s, '\\'))
}

/// One obfuscated character: the low byte of the character XORed with the
/// key byte at the character's index, modulo the key length.
pub open spec fn spec_xor_char(c: char, key_bytes: Seq<u8>, i: int) -> char
    recommends
        key_bytes.len() > 0,
{
    ((((c as u32) % 256) as u8) ^ key_bytes[i % (key_bytes.len() as int)]) as char
}

/// The XOR-obfuscated form of a message under a repeating key.
pub open spec fn spec_xor_encrypt(msg: Seq<char>, key_bytes: Seq<u8>) -> Seq<char>
    recommends
        key_bytes.len() > 0,
{
    Seq::new(msg.len(), |i: int| spec_xor_char(msg[i], key_bytes, i))
}

impl FuncId {
    /// The legacy table, built once and read-only thereafter.
    pub fn new() -> (r: FuncId)
        ensures
            funcid_wf(r),
    {
        let mut registry: Vec<String> = Vec::new();
        registry.push(String::from_str("stop"));
        registry.push(String::from_str("limit"));
        registry.push(String::from_str("arbitrage"));
        registry.push(String::from_str("kappa"));
        registry.push(String::from_str("market"));
        registry.push(String::from_str("sell"));
        let mut k: usize = 6;
        while k < 16
            invariant
                6 <= k <= 16,
                registry.len() == k,
                forall|i: int| 0 <= i < 6 ==> (#[trigger] registry@[i])@ == spec_func_name(i),
                forall|i: int| 6 <= i < k ==> (#[trigger] registry@[i])@ == Seq::<char>::empty(),
            decreases 16 - k,
        {
            registry.push(String::new());
            k = k + 1;
        }
        let mut colors: Vec<String> = Vec::new();
        colors.push(String::from_str("#ff0000"));
        colors.push(String::from_str("#8b4513"));
        colors.push(String::from_str("#ffbf00"));
        colors.push(String::from_str("#ffffff"));
        colors.push(String::from_str("#00ffff"));
        colors.push(String::from_str("#00ff00"));
        let mut k: usize = 6;
        while k < 16
            invariant
                6 <= k <= 16,
                colors.len() == k,
                forall|i: int| 0 <= i < 6 ==> (#[trigger] colors@[i])@ == spec_func_color(i),
                forall|i: int| 6 <= i < k ==> (#[trigger] colors@[i])@ == Seq::<char>::empty(),
            decreases 16 - k,
        {
            colors.push(String::new());
            k = k + 1;
        }
        FuncId { registry, colors }
    }

    /// The name of a slot; `None` for an id out of range.
    pub fn get_func(&self, id: u8) -> (r: Option<&str>)
        requires
            funcid_wf(*self),
        ensures
            r is Some <==> id < 16,
            r is Some ==> r->0@ == spec_func_name(id as int),
    {
        if id < 16 {
            Some(self.registry[id as usize].as_str())
        } else {
            None
        }
    }

    /// The display color of a slot; `None` for an id out of range.
    pub fn get_color(&self, id: u8) -> (r: Option<&str>)
        requires
            funcid_wf(*self),
        ensures
            r is Some <==> id < 16,
            r is Some ==> r->0@ == spec_func_color(id as int),
    {
        if id < 16 {
            Some(self.colors[id as usize].as_str())
        } else {
            None
        }
    }

    /// True iff the entropy score is above the high-focus bound and the
    /// function name appears in the table (an empty name matches the
    /// unassigned slots).
    pub fn free_tilde(&self, func: &str, entropy: u32) -> (r: bool)
        requires
            funcid_wf(*self),
        ensures
            r == (entropy > HIGH_FOCUS && exists|i: int|
                0 <= i < 16 && spec_func_name(i) == func@),
    {
        if entropy <= HIGH_FOCUS {
            return false;
        }
        let mut i: usize = 0;
        while i < 16
            invariant
                i <= 16,
                funcid_wf(*self),
                entropy > HIGH_FOCUS,
                forall|k: int| 0 <= k < i ==> spec_func_name(k) != func@,
            decreases 16 - i,
        {
            if str_eq(self.registry[i].as_str(), func) {
                proof {
                    assert(spec_func_name(i as int) == func@);
                    assert(exists|k: int| 0 <= k < 16 && spec_func_name(k) == func@);
                }
                return true;
            }
            i = i + 1;
        }
        false
    }

    /// True iff the input reads the same forwards and backwards.
    pub fn repeater(&self, input: &str) -> (r: bool)
        ensures
            r == (input@ == input@.reverse()),
    {
        let len = input.unicode_len();
        let mut i: usize = 0;
        while i < len
            invariant
                i <= len,
                len == input@.len(),
                forall|k: int| 0 <= k < i ==> input@[k] == #[trigger] input@[len - 1 - k],
            decreases len - i,
        {
            if input.get_char(i) != input.get_char(len - 1 - i) {
                proof {
                    assert(input@.reverse()[i as int] == input@[len - 1 - i]);
                }
                return false;
            }
            i = i + 1;
        }
        proof {
            assert(input@ =~= input@.reverse());
        }
        true
    }

    /// XOR-obfuscate a message under a repeating key. The key must be
    /// non-empty.
    pub fn backslash_encrypt(&self, message: &str, key: &str) -> (r: String)
        requires
            key.spec_bytes().len() > 0,
        ensures
            r@ == spec_xor_encrypt(message@, key.spec_bytes()),
    {
        let key_bytes = key.as_bytes();
        let len = message.unicode_len();
        let mut out = String::new();
        let mut i: usize = 0;
        while i < len
            invariant
                i <= len,
                len == message@.len(),
                key_bytes@ == key.spec_bytes(),
                key_bytes@.len() > 0,
                out@.len() == i,
                forall|k: int| 0 <= k < i ==> out@[k] == spec_xor_char(
                    message@[k],
                    key_bytes@,
                    k,
                ),
            decreases len - i,
        {
            let c = message.get_char(i);
            let low: u8 = ((c as u32) % 256) as u8;
            let xored: u8 = low ^ key_bytes[i % key_bytes.len()];
            push_char(&mut out, xored as char);
            i = i + 1;
        }
        proof {
            assert(out@ =~= spec_xor_encrypt(message@, key.spec_bytes()));
        }
        out
    }

    /// Escape a string for wire framing: each path separator is wrapped in
    /// backslashes and each literal backslash is doubled.
    pub fn backslash_parse(&self, data: &str) -> (r: String)
        ensures
            r@ == spec_escape(data@),
    {
        let len = data.unicode_len();
        let mut out = String::new();
        proof {
            assert(data@.subrange(0, len as int) =~= data@);
            assert(Seq::<char>::empty() + spec_escape(data@) =~= spec_escape(data@));
        }
        let mut i: usize = 0;
        while i < len
            invariant
                i <= len,
                len == data@.len(),
                spec_escape(data@) == out@ + spec_escape(data@.subrange(i as int, len as int)),
            decreases len - i,
        {
            let ghost old_out = out@;
            proof {
                let rest = data@.subrange(i as int, len as int);
                let rest1 = data@.subrange(i as int + 1, len as int);
                assert(rest[0] == data@[i as int]);
                assert(rest.drop_first() =~= rest1);
                assert(spec_escape(rest) == spec_escape_char(data@[i as int]) + spec_escape(rest1));
            }
            let c = data.get_char(i);
            if c == '/' {
                push_char(&mut out, '\\');
                push_char(&mut out, '/');
                push_char(&mut out, '\\');
            } else if c == '\\' {
                push_char(&mut out, '\\');
                push_char(&mut out, '\\');
            } else {
                push_char(&mut out, c);
            }
            proof {
                let rest1 = data@.subrange(i as int + 1, len as int);
                assert(out@ =~= old_out + spec_escape_char(data@[i as int]));
                assert(old_out + (spec_escape_char(data@[i as int]) + spec_escape(rest1)) =~= out@
                    + spec_escape(rest1));
            }
            i = i + 1;
        }
        proof {
            assert(data@.subrange(len as int, len as int) =~= Seq::<char>::empty());
            assert(spec_escape(data@) =~= out@);
        }
        out
    }

    /// Read the backslash-delimited chunks of an escaped string from the
    /// end: the chunks in reverse order, with the lone-separator chunks
    /// dropped.
    pub fn backwards_greedy(&self, data: &str) -> (r: Vec<String>)
        ensures
            r.deep_view() == spec_backwards(data@),
    {
        let tokens = split_char(data, '\\');
        let ghost chunks = tokens.deep_view();
        proof {
            assert(chunks.subrange(0, tokens.len() as int) =~= chunks);
            assert(Seq::<Seq<char>>::empty() + spec_keep_rev(chunks) =~= spec_keep_rev(chunks));
        }
        let mut out: Vec<String> = Vec::new();
        let mut j: usize = tokens.len();
        while j > 0
            invariant
                j <= tokens.len(),
                chunks == tokens.deep_view(),
                spec_keep_rev(chunks) == out.deep_view() + spec_keep_rev(
                    chunks.subrange(0, j as int),
                ),
            decreases j,
        {
            proof {
                let pre = chunks.subrange(0, j as int);
                assert(pre.last() == chunks[j - 1]);
                assert(pre.drop_last() =~= chunks.subrange(0, j as int - 1));
            }
            let chunk = &tokens[j - 1];
            let is_sep = chunk.as_str().unicode_len() == 1 && chunk.as_str().get_char(0) == '/';
            proof {
                assert(is_sep == (chunks[j - 1] == seq!['/'])) by {
                    if chunks[j - 1].len() == 1 && chunks[j - 1][0] == '/' {
                        assert(chunks[j - 1] =~= seq!['/']);
                    }
                }
            }
            if !is_sep {
                let ghost old_out = out.deep_view();
                out.push(chunk.clone());
                proof {
                    let keep_pre = spec_keep_rev(chunks.subrange(0, j as int - 1));
                    assert(out.deep_view() =~= old_out.push(chunks[j - 1]));
                    assert(old_out + (seq![chunks[j - 1]] + keep_pre) =~= out.deep_view()
                        + keep_pre);
                }
            }
            j = j - 1;
        }
        proof {
            assert(chunks.subrange(0, 0) =~= Seq::<Seq<char>>::empty());
            assert(out.deep_view() + Seq::<Seq<char>>::empty() =~= out.deep_view());
            assert(out.deep_view() =~= spec_backwards(data@));
        }
        out
    }
}

} // verus!
