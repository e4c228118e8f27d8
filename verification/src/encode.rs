//! Building JSON request bodies: escaping text and framing objects and
//! arrays, byte by byte, with the resulting text pinned down exactly.

use vstd::prelude::*;

verus! {

use vstd::string::StringSliceAdditionalSpecFns;
use vstd::utf8::encode_utf8;
use crate::digits::{dec_bytes, u64_to_dec_bytes};

/// The lower-case hex digit for `d` (meaningful for `d < 16`), as an ASCII
/// byte.
pub open spec fn hex_digit(d: nat) -> u8 {
    if d < 10 {
        (48 + d) as u8
    } else {
        (87 + d) as u8
    }
}

/// The JSON escape of one byte of UTF-8 text: quote and backslash get a
/// backslash, control bytes a `\u00XX` escape; every other byte, those of
/// multi-byte characters included, stands unchanged.
pub open spec fn escape_byte(x: u8) -> Seq<u8> {
    if x == 34 {
        seq![92u8, 34u8]
    } else if x == 92 {
        seq![92u8, 92u8]
    } else if x < 32 {
        seq![92u8, 117u8, 48u8, 48u8, hex_digit((x / 16) as nat), hex_digit((x % 16) as nat)]
    } else {
        seq![x]
    }
}

/// The JSON escape of UTF-8 text.
pub open spec fn escape_bytes(s: Seq<u8>) -> Seq<u8>
    decreases s.len(),
{
    if s.len() == 0 {
        seq![]
    } else {
        escape_bytes(s.drop_last()) + escape_byte(s.last())
    }
}

/// A JSON string literal: quoted, escaped UTF-8 text.
pub open spec fn quoted(s: Seq<u8>) -> Seq<u8> {
    seq![34u8] + escape_bytes(s) + seq![34u8]
}

/// The JSON string literal of a character sequence.
pub open spec fn str_lit(s: Seq<char>) -> Seq<u8> {
    quoted(encode_utf8(s))
}

/// One `"name":value` member, the value already encoded.
pub open spec fn field_bytes(f: (Seq<u8>, Seq<u8>)) -> Seq<u8> {
    quoted(f.0) + seq![58u8] + f.1
}

/// The members of a JSON object, joined by commas.
pub open spec fn obj_fields(fs: Seq<(Seq<u8>, Seq<u8>)>) -> Seq<u8>
    decreases fs.len(),
{
    if fs.len() == 0 {
        seq![]
    } else if fs.len() == 1 {
        field_bytes(fs[0])
    } else {
        obj_fields(fs.drop_last()) + seq![44u8] + field_bytes(fs.last())
    }
}

/// The JSON text of an object with the given members.
pub open spec fn obj_bytes(fs: Seq<(Seq<u8>, Seq<u8>)>) -> Seq<u8> {
    seq![123u8] + obj_fields(fs) + seq![125u8]
}

/// The elements of a JSON array of strings, joined by commas.
pub open spec fn arr_elems(items: Seq<Seq<char>>) -> Seq<u8>
    decreases items.len(),
{
    if items.len() == 0 {
        seq![]
    } else if items.len() == 1 {
        str_lit(items[0])
    } else {
        arr_elems(items.drop_last()) + seq![44u8] + str_lit(items.last())
    }
}

/// The JSON text of an array of strings.
pub open spec fn str_arr_bytes(items: Seq<Seq<char>>) -> Seq<u8> {
    seq![91u8] + arr_elems(items) + seq![93u8]
}

fn hex_digit_exec(d: u8) -> (r: u8)
    requires
        d < 16,
    ensures
        r == hex_digit(d as nat),
{
    if d < 10 {
        48 + d
    } else {
        87 + d
    }
}

/// Append the bytes of `s` unchanged.
pub(crate) fn push_bytes(out: &mut Vec<u8>, s: &[u8])
    ensures
        final(out)@ == old(out)@ + s@,
{
    let mut i: usize = 0;
    while i < s.len()
        invariant
            i <= s@.len(),
            out@ == old(out)@ + s@.take(i as int),
        decreases s@.len() - i,
    {
        out.push(s[i]);
        proof {
            assert(out@ =~= old(out)@ + s@.take(i as int + 1));
        }
        i = i + 1;
    }
    proof {
        assert(s@.take(s@.len() as int) =~= s@);
    }
}

/// Append the JSON escape of the UTF-8 text `s`.
fn push_escaped(out: &mut Vec<u8>, s: &[u8])
    ensures
        final(out)@ == old(out)@ + escape_bytes(s@),
{
    let mut i: usize = 0;
    while i < s.len()
        invariant
            i <= s@.len(),
            out@ == old(out)@ + escape_bytes(s@.take(i as int)),
        decreases s@.len() - i,
    {
        let x = s[i];
        if x == 34 || x == 92 {
            out.push(92);
            out.push(x);
        } else if x < 32 {
            out.push(92);
            out.push(117);
            out.push(48);
            out.push(48);
            out.push(hex_digit_exec(x / 16));
            out.push(hex_digit_exec(x % 16));
        } else {
            out.push(x);
        }
        proof {
            assert(s@.take(i as int + 1).drop_last() =~= s@.take(i as int));
            assert(s@.take(i as int + 1).last() == s@[i as int]);
            assert(out@ =~= old(out)@ + escape_bytes(s@.take(i as int + 1)));
        }
        i = i + 1;
    }
    proof {
        assert(s@.take(s@.len() as int) =~= s@);
    }
}

/// Append the JSON string literal of `s`.
pub(crate) fn push_str_lit(out: &mut Vec<u8>, s: &str)
    ensures
        final(out)@ == old(out)@ + str_lit(s@),
{
    out.push(34);
    push_escaped(out, s.as_bytes());
    out.push(34);
    proof {
        assert(out@ =~= old(out)@ + str_lit(s@));
    }
}

/// An object under construction: the text built so far and, as ghost state,
/// the members it stands for.
pub struct ObjBuilder {
    buf: Vec<u8>,
    fields: Ghost<Seq<(Seq<u8>, Seq<u8>)>>,
}

impl ObjBuilder {
    /// The members recorded so far.
    pub closed spec fn fields(&self) -> Seq<(Seq<u8>, Seq<u8>)> {
        self.fields@
    }

    /// The text built so far is the object's opening brace and exactly the
    /// recorded members.
    pub closed spec fn wf(&self) -> bool {
        self.buf@ == seq![123u8] + obj_fields(self.fields@)
    }

    /// An object with no members yet.
    pub fn new() -> (r: ObjBuilder)
        ensures
            r.wf(),
            r.fields() == Seq::<(Seq<u8>, Seq<u8>)>::empty(),
    {
        let mut buf: Vec<u8> = Vec::new();
        buf.push(123);
        let r = ObjBuilder { buf, fields: Ghost(Seq::empty()) };
        proof {
            assert(r.buf@ =~= seq![123u8] + obj_fields(r.fields@));
        }
        r
    }

    fn sep(&mut self)
        requires
            old(self).wf(),
        ensures
            final(self).fields() == old(self).fields(),
            final(self).buf@ == old(self).buf@ + (if old(self).fields().len() == 0 {
                Seq::<u8>::empty()
            } else {
                seq![44u8]
            }),
    {
        if self.buf.len() > 1 {
            self.buf.push(44);
            proof {
                assert(old(self).fields().len() > 0) by {
                    if old(self).fields@.len() == 0 {
                        assert(old(self).buf@ =~= seq![123u8]);
                    }
                }
            }
        } else {
            proof {
                assert(old(self).fields().len() == 0) by {
                    if old(self).fields@.len() > 0 {
                        assert(old(self).buf@.len() >= 1 + field_bytes(
                            old(self).fields@[0],
                        ).len()) by {
                            lemma_obj_fields_len(old(self).fields@);
                        }
                        assert(field_bytes(old(self).fields@[0]).len() >= 3);
                    }
                }
                assert(self.buf@ =~= old(self).buf@ + Seq::<u8>::empty());
            }
        }
    }

    /// Record one member whose value text is `val`.
    fn add_field(&mut self, name: &str, val: Vec<u8>)
        requires
            old(self).wf(),
        ensures
            final(self).wf(),
            final(self).fields() == old(self).fields().push((encode_utf8(name@), val@)),
    {
        self.sep();
        push_str_lit(&mut self.buf, name);
        self.buf.push(58);
        push_bytes(&mut self.buf, val.as_slice());
        proof {
            let fs = old(self).fields@;
            let f = (encode_utf8(name@), val@);
            self.fields@ = fs.push(f);
            assert(fs.push(f).drop_last() =~= fs);
            assert(fs.push(f).last() == f);
            if fs.len() == 0 {
                assert(self.buf@ =~= seq![123u8] + obj_fields(fs.push(f)));
            } else {
                assert(self.buf@ =~= seq![123u8] + obj_fields(fs.push(f)));
            }
        }
    }

    /// Record a member holding a JSON string.
    pub fn add_str(&mut self, name: &str, val: &str)
        requires
            old(self).wf(),
        ensures
            final(self).wf(),
            final(self).fields() == old(self).fields().push(
                (encode_utf8(name@), str_lit(val@)),
            ),
    {
        let mut v: Vec<u8> = Vec::new();
        push_str_lit(&mut v, val);
        proof {
            assert(v@ =~= str_lit(val@));
        }
        self.add_field(name, v);
    }

    /// Record a member holding a JSON number.
    pub fn add_u64(&mut self, name: &str, val: u64)
        requires
            old(self).wf(),
        ensures
            final(self).wf(),
            final(self).fields() == old(self).fields().push(
                (encode_utf8(name@), dec_bytes(val as nat)),
            ),
    {
        self.add_field(name, u64_to_dec_bytes(val));
    }

    /// Record a member holding already-encoded JSON text.
    pub fn add_raw(&mut self, name: &str, val: Vec<u8>)
        requires
            old(self).wf(),
        ensures
            final(self).wf(),
            final(self).fields() == old(self).fields().push((encode_utf8(name@), val@)),
    {
        self.add_field(name, val);
    }

    /// Record a member holding a JSON array of strings.
    pub fn add_str_arr(&mut self, name: &str, items: &Vec<String>)
        requires
            old(self).wf(),
        ensures
            final(self).wf(),
            final(self).fields() == old(self).fields().push(
                (encode_utf8(name@), str_arr_bytes(items.deep_view())),
            ),
    {
        let mut v: Vec<u8> = Vec::new();
        v.push(91);
        let mut i: usize = 0;
        while i < items.len()
            invariant
                i <= items@.len(),
                v@ == seq![91u8] + arr_elems(items.deep_view().take(i as int)),
            decreases items@.len() - i,
        {
            if i > 0 {
                v.push(44);
            }
            push_str_lit(&mut v, items[i].as_str());
            proof {
                let dv = items.deep_view();
                assert(dv.take(i as int + 1).drop_last() =~= dv.take(i as int));
                assert(dv.take(i as int + 1).last() == dv[i as int]);
                assert(dv[i as int] == items@[i as int]@);
                assert(v@ =~= seq![91u8] + arr_elems(dv.take(i as int + 1)));
            }
            i = i + 1;
        }
        v.push(93);
        proof {
            assert(items.deep_view().take(items@.len() as int) =~= items.deep_view());
            assert(v@ =~= str_arr_bytes(items.deep_view()));
        }
        self.add_field(name, v);
    }

    /// Close the object: its full JSON text.
    pub fn finish(self) -> (r: Vec<u8>)
        requires
            self.wf(),
        ensures
            r@ == obj_bytes(self.fields()),
    {
        let mut buf = self.buf;
        buf.push(125);
        proof {
            assert(buf@ =~= obj_bytes(self.fields@));
        }
        buf
    }
}

proof fn lemma_obj_fields_len(fs: Seq<(Seq<u8>, Seq<u8>)>)
    requires
        fs.len() > 0,
    ensures
        obj_fields(fs).len() >= field_bytes(fs[0]).len(),
    decreases fs.len(),
{
    if fs.len() > 1 {
        lemma_obj_fields_len(fs.drop_last());
        assert(fs.drop_last()[0] == fs[0]);
    }
}

} // verus!
