//! Mapping a request path onto a file below the serve root.
use vstd::prelude::*;
use vstd::utf8::{decode_utf8, encode_utf8, is_char_boundary};
use vstd::utf8::{decode_utf8_encode_utf8, encode_utf8_decode_utf8, encode_utf8_valid_utf8};

verus! {

/// The file name served for a request path that names no file.
pub open spec fn index_name() -> Seq<char> {
    seq!['i', 'n', 'd', 'e', 'x', '.', 'h', 't', 'm', 'l']
}

/// `path` with one leading `/` removed, if it has one.
pub open spec fn strip_one_slash(path: Seq<char>) -> Seq<char> {
    if path.len() > 0 && path[0] == '/' {
        path.drop_first()
    } else {
        path
    }
}

/// The file, relative to the serve root, that a request path names: the
/// path without its first `/`, or the index file where nothing is left.
pub open spec fn file_path_of(path: Seq<char>) -> Seq<char> {
    let rest = strip_one_slash(path);
    if rest.len() == 0 {
        index_name()
    } else {
        rest
    }
}

/// The leading byte of a UTF-8 text is `/` exactly when its first character is.
proof fn lemma_leading_slash(chars: Seq<char>)
    ensures
        (encode_utf8(chars).len() > 0 && encode_utf8(chars)[0] == 0x2Fu8) <==> (chars.len() > 0
            && chars[0] == '/'),
{
    let bytes = encode_utf8(chars);
    encode_utf8_valid_utf8(chars);
    encode_utf8_decode_utf8(chars);
    if bytes.len() > 0 && bytes[0] == 0x2Fu8 {
        assert((0x2Fu8 & 0x7Fu8) == 0x2Fu8) by (bit_vector);
        assert(decode_utf8(bytes)[0] == '/');
    }
    if chars.len() > 0 && chars[0] == '/' {
        assert((0x2Fu32 & 0x7Fu32) as u8 == 0x2Fu8) by (bit_vector);
        assert(bytes[0] == 0x2Fu8);
    }
}

/// The text after a leading `/`, which takes one byte in UTF-8.
fn after_slash(path: &str) -> (r: &str)
    requires
        path@.len() > 0,
        path@[0] == '/',
    ensures
        r@ == path@.drop_first(),
{
    let ghost bytes = encode_utf8(path@);
    proof {
        lemma_leading_slash(path@);
        encode_utf8_valid_utf8(path@);
        encode_utf8_decode_utf8(path@);
        assert((0x2Fu8 & 0x7Fu8) == 0x2Fu8) by (bit_vector);
        reveal_with_fuel(is_char_boundary, 2);
        assert(is_char_boundary(bytes, 1));
    }
    let (_, rest) = path.split_at(1);
    proof {
        let tail = bytes.subrange(1, bytes.len() as int);
        assert(tail =~= vstd::utf8::pop_first_scalar(bytes));
        assert(decode_utf8(bytes) == seq![path@[0]] + decode_utf8(tail));
        decode_utf8_encode_utf8(tail);
        encode_utf8_decode_utf8(rest@);
        assert(rest@ =~= path@.drop_first());
    }
    rest
}

/// The file, relative to the serve root, that the request path `uri_path`
/// names: one leading `/` is removed (no more), and an empty rest stands for
/// `index.html`. No `..` segment is removed or refused.
pub fn file_path_for(uri_path: &str) -> (r: String)
    ensures
        r@ == file_path_of(uri_path@),
{
    let bytes = uri_path.as_bytes();
    proof {
        lemma_leading_slash(uri_path@);
    }
    let rest: &str = if bytes.len() > 0 && bytes[0] == 0x2Fu8 {
        after_slash(uri_path)
    } else {
        uri_path
    };
    if rest.is_empty() {
        let name = "index.html";
        proof {
            reveal_strlit("index.html");
        }
        assert(name@ =~= index_name());
        name.to_owned()
    } else {
        rest.to_owned()
    }
}

} // verus!
