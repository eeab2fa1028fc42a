//! Strings in a terminal that can be opened.
use crate::events::{MaybeNavigationTarget, PathLikeTarget, TargetView};
use crate::grid::GridRange;
use std::path::PathBuf;
use vstd::prelude::*;

verus! {

/// The value of a hexadecimal digit, given by its ASCII code.
pub open spec fn hex_value(digit: u8) -> Option<int> {
    if 48 <= digit <= 57 {
        Some(digit - 48)
    } else if 65 <= digit <= 70 {
        Some(digit - 55)
    } else if 97 <= digit <= 102 {
        Some(digit - 87)
    } else {
        None
    }
}

/// The bytes with each percent sign that two hexadecimal digits follow replaced, together with
/// those digits, by the byte that they write out. Any other percent sign stays.
pub open spec fn percent_decoded(bytes: Seq<u8>) -> Seq<u8>
    decreases bytes.len(),
{
    if bytes.len() == 0 {
        bytes
    } else if bytes.len() >= 3 && bytes[0] == 37 && hex_value(bytes[1]) is Some && hex_value(
        bytes[2],
    ) is Some {
        seq![(hex_value(bytes[1])->0 * 16 + hex_value(bytes[2])->0) as u8] + percent_decoded(
            bytes.skip(3),
        )
    } else {
        seq![bytes[0]] + percent_decoded(bytes.skip(1))
    }
}

/// The text that the percent-encoded text stands for, where it stands for a text.
pub open spec fn url_decoded(text: Seq<char>) -> Option<Seq<char>> {
    let bytes = percent_decoded(vstd::utf8::encode_utf8(text));
    if vstd::utf8::valid_utf8(bytes) {
        Some(vstd::utf8::decode_utf8(bytes))
    } else {
        None
    }
}

/// `urlencoding::decode`: replaces what is percent-encoded by the bytes it stands for, and fails
/// where these are no UTF-8.
#[verifier::external_body]
fn url_decode(text: &str) -> (decoded: Option<String>)
    ensures
        match decoded {
            Some(decoded) => url_decoded(text@) == Some(decoded@),
            None => url_decoded(text@) is None,
        },
{
    urlencoding::decode(text).ok().map(|decoded| decoded.into_owned())
}

/// A link that was found in the terminal: its text, whether that is an address, and its cells.
#[derive(Clone, Debug)]
pub struct FoundLink {
    pub text: String,
    pub is_url: bool,
    pub span: GridRange,
}

/// What a link leads to. An address of the scheme `file` is treated like a path, so that line
/// numbers behind it are understood; its path is decoded, where that can be done.
pub open spec fn target_of(
    text: Seq<char>,
    is_url: bool,
    terminal_dir: Option<PathBuf>,
) -> TargetView {
    match crate::text::without_prefix(text, "file://"@) {
        Some(path) if is_url => TargetView::PathLike {
            maybe_path: match url_decoded(path) {
                Some(decoded) => decoded,
                None => path,
            },
            terminal_dir,
        },
        _ => if is_url {
            TargetView::Url(text)
        } else {
            TargetView::PathLike { maybe_path: text, terminal_dir }
        },
    }
}

/// What a link leads to.
pub fn navigation_target(link: &FoundLink, terminal_dir: Option<PathBuf>) -> (target:
    MaybeNavigationTarget)
    ensures
        target@ == target_of(link.text@, link.is_url, terminal_dir),
{
    if link.is_url {
        match crate::text::strip_prefix(link.text.as_str(), "file://") {
            Some(path) => {
                let maybe_path = match url_decode(path.as_str()) {
                    Some(decoded) => decoded,
                    None => path,
                };
                MaybeNavigationTarget::PathLike(PathLikeTarget { maybe_path, terminal_dir })
            },
            None => MaybeNavigationTarget::Url(link.text.clone()),
        }
    } else {
        MaybeNavigationTarget::PathLike(
            PathLikeTarget { maybe_path: link.text.clone(), terminal_dir },
        )
    }
}

proof fn nothing_to_decode(bytes: Seq<u8>)
    requires
        forall|i: int| 0 <= i < bytes.len() ==> bytes[i] != 37,
    ensures
        percent_decoded(bytes) == bytes,
    decreases bytes.len(),
{
    if bytes.len() > 0 {
        nothing_to_decode(bytes.skip(1));
        assert(percent_decoded(bytes) =~= bytes);
    }
}

/// A `file` address whose path has no percent sign leads to that very path.
pub proof fn plain_file_address_leads_to_its_path(path: Seq<char>, terminal_dir: Option<PathBuf>)
    requires
        forall|i: int|
            0 <= i < vstd::utf8::encode_utf8(path).len() ==> vstd::utf8::encode_utf8(path)[i]
                != 37,
    ensures
        target_of("file://"@ + path, true, terminal_dir) == (TargetView::PathLike {
            maybe_path: path,
            terminal_dir,
        }),
{
    broadcast use {
        vstd::utf8::encode_utf8_valid_utf8,
        vstd::utf8::encode_utf8_decode_utf8,
    };

    nothing_to_decode(vstd::utf8::encode_utf8(path));
    let text = "file://"@ + path;
    assert("file://"@.is_prefix_of(text)) by {
        assert(text.subrange(0, "file://"@.len() as int) =~= "file://"@);
    }
    assert(text.skip("file://"@.len() as int) =~= path);
}

/// What is no address is taken for a path as it stands.
pub proof fn other_strings_are_paths(text: Seq<char>, terminal_dir: Option<PathBuf>)
    ensures
        target_of(text, false, terminal_dir) == (TargetView::PathLike {
            maybe_path: text,
            terminal_dir,
        }),
{
}

/// An address of another scheme is opened as it stands.
pub proof fn other_addresses_stay_addresses(text: Seq<char>, terminal_dir: Option<PathBuf>)
    requires
        !"file://"@.is_prefix_of(text),
    ensures
        target_of(text, true, terminal_dir) == TargetView::Url(text),
{
}

} // verus!
