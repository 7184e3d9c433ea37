//! Deterministic identity colours and file-type tints, shared with the
//! design tokens: an identity's avatar colour is a stable hash of its id's
//! UTF-16 code units; a file's tint follows its extension.

use vstd::prelude::*;

use crate::text::{chars_of, owned, push_str, str_eq};

verus! {

/// The avatar palette, indexed by the identity hash modulo its length.
pub open spec fn avatar_palette(i: int) -> Seq<char> {
    if i == 0 {
        "#2fd6a4"@
    } else if i == 1 {
        "#6aa8f7"@
    } else if i == 2 {
        "#a78bfa"@
    } else if i == 3 {
        "#fb923c"@
    } else if i == 4 {
        "#f472b6"@
    } else {
        "#22d3ee"@
    }
}

/// One hash step: `h * 31 + unit`, wrapping at 32 bits.
pub open spec fn hash_step(h: u32, unit: u32) -> u32 {
    vstd::wrapping::u32_specs::wrapping_add(vstd::wrapping::u32_specs::wrapping_mul(h, 31), unit)
}

/// The hash after the UTF-16 code units of one character.
pub open spec fn hash_char(h: u32, c: char) -> u32 {
    let v = c as u32;
    if v < 0x10000 {
        hash_step(h, v)
    } else {
        let w = (v - 0x10000) as u32;
        hash_step(hash_step(h, (0xD800 + w / 1024) as u32), (0xDC00 + w % 1024) as u32)
    }
}

/// The hash of a string's UTF-16 code units, from 0.
pub open spec fn id_hash(s: Seq<char>) -> u32
    decreases s.len(),
{
    if s.len() == 0 {
        0
    } else {
        hash_char(id_hash(s.drop_last()), s.last())
    }
}

/// The avatar colour of an identity.
pub open spec fn color_spec(id: Seq<char>) -> Seq<char> {
    avatar_palette((id_hash(id) % 6) as int)
}

fn palette_entry(i: u32) -> (r: &'static str)
    requires
        i < 6,
    ensures
        r@ == avatar_palette(i as int),
{
    if i == 0 {
        "#2fd6a4"
    } else if i == 1 {
        "#6aa8f7"
    } else if i == 2 {
        "#a78bfa"
    } else if i == 3 {
        "#fb923c"
    } else if i == 4 {
        "#f472b6"
    } else {
        "#22d3ee"
    }
}

/// The avatar colour of an identity: a stable hash of the id's UTF-16 code
/// units picks one of six palette colours.
pub fn color_for_id(id: &str) -> (r: &'static str)
    ensures
        r@ == color_spec(id@),
{
    let v = chars_of(id);
    let mut h: u32 = 0;
    let mut i: usize = 0;
    while i < v.len()
        invariant
            i <= v@.len(),
            v@ == id@,
            h == id_hash(v@.subrange(0, i as int)),
        decreases v.len() - i,
    {
        let c = v[i];
        let u = c as u32;
        if u < 0x10000 {
            h = h.wrapping_mul(31).wrapping_add(u);
        } else {
            let w: u32 = u - 0x10000;
            h = h.wrapping_mul(31).wrapping_add(0xD800 + w / 1024);
            h = h.wrapping_mul(31).wrapping_add(0xDC00 + w % 1024);
        }
        proof {
            let t = v@.subrange(0, i + 1);
            assert(t.drop_last() =~= v@.subrange(0, i as int));
            assert(t.last() == c);
        }
        i = i + 1;
    }
    proof {
        assert(v@.subrange(0, i as int) =~= id@);
    }
    palette_entry(h % 6)
}

/// The lowercased extension of a file name: the text after its last dot,
/// or empty when there is none.
pub open spec fn ext_spec(name: Seq<char>) -> Seq<char> {
    let i = crate::text::last_index_of(name, '.');
    if i < 0 {
        Seq::empty()
    } else {
        name.skip(i + 1).map_values(|c: char| crate::files::preview::ascii_lower(c))
    }
}

fn ext_of(name: &str) -> (r: Vec<char>)
    ensures
        r@ == ext_spec(name@),
{
    let v = chars_of(name);
    match crate::text::find_last(&v, '.') {
        Some(idx) => {
            let mut out: Vec<char> = Vec::new();
            let mut k: usize = idx + 1;
            while k < v.len()
                invariant
                    idx < v@.len(),
                    idx + 1 <= k <= v@.len(),
                    out@ =~= v@.subrange(idx + 1, k as int).map_values(|c: char| crate::files::preview::ascii_lower(c)),
                decreases v.len() - k,
            {
                out.push(crate::files::preview::ascii_lower_char(v[k]));
                proof {
                    assert(v@.subrange(idx + 1, k + 1) =~= v@.subrange(idx + 1, k as int).push(v@[k as int]));
                }
                k = k + 1;
            }
            proof {
                assert(v@.subrange(idx + 1, v@.len() as int) =~= v@.skip(idx + 1));
            }
            out
        },
        None => Vec::new(),
    }
}

/// The tint a file extension takes.
pub open spec fn tint_spec(ext: Seq<char>) -> Seq<char> {
    if ext == "pdf"@ {
        "#f26d6d"@
    } else if ext == "md"@ || ext == "txt"@ || ext == "doc"@ || ext == "docx"@ {
        "#6aa8f7"@
    } else if ext == "json"@ || ext == "js"@ || ext == "ts"@ {
        "#2fd6a4"@
    } else if ext == "png"@ || ext == "jpg"@ || ext == "jpeg"@ || ext == "gif"@ || ext == "svg"@ || ext == "webp"@ {
        "#a78bfa"@
    } else {
        "#8aa39d"@
    }
}

fn is_ext(e: &Vec<char>, lit: &str) -> (r: bool)
    ensures
        r == (e@ == lit@),
{
    let l = chars_of(lit);
    crate::text::chars_eq(e, &l)
}

/// The tint of a file by its extension (documents blue, code accent,
/// images violet, PDFs red, anything else dim).
pub fn file_tint(name: &str) -> (r: &'static str)
    ensures
        r@ == tint_spec(ext_spec(name@)),
{
    let e = ext_of(name);
    if is_ext(&e, "pdf") {
        "#f26d6d"
    } else if is_ext(&e, "md") || is_ext(&e, "txt") || is_ext(&e, "doc") || is_ext(&e, "docx") {
        "#6aa8f7"
    } else if is_ext(&e, "json") || is_ext(&e, "js") || is_ext(&e, "ts") {
        "#2fd6a4"
    } else if is_ext(&e, "png") || is_ext(&e, "jpg") || is_ext(&e, "jpeg") || is_ext(&e, "gif")
        || is_ext(&e, "svg") || is_ext(&e, "webp") {
        "#a78bfa"
    } else {
        "#8aa39d"
    }
}

/// An avatar's background: its colour at 15% alpha (`26` hex).
pub fn avatar_bg(id: &str) -> (r: String)
    ensures
        r@ == color_spec(id@) + "26"@,
{
    let mut s = owned(color_for_id(id));
    push_str(&mut s, "26");
    s
}

/// A tile's background: its colour at 12% alpha (`1f` hex).
pub fn tile_bg(id: &str) -> (r: String)
    ensures
        r@ == color_spec(id@) + "1f"@,
{
    let mut s = owned(color_for_id(id));
    push_str(&mut s, "1f");
    s
}

} // verus!
