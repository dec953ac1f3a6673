//! Channel addresses: the names under which a companion listens.
//!
//! An address is made once, when a companion is launched, from a random
//! number of thirty-two bits. Where the platform names local channels by paths
//! it is a path under the temporary directory; where it only has a namespace of
//! its own it is a name in that namespace. Both forms end in the same decimal
//! suffix.

use crate::decimal::{
    decimal_text, lemma_decimal_text_digits, lemma_decimal_text_injective,
    lemma_decimal_text_len_u32, push_decimal,
};
use vstd::prelude::*;
use vstd::string::*;
use vstd::utf8::*;

verus! {

/// Which kinds of names the platform accepts for a local channel.
#[derive(Clone, Copy, Debug, PartialEq, Eq, Structural)]
pub enum NameKind {
    /// Only paths in the file system.
    OnlyPaths,
    /// Only names in the namespace kept for local channels.
    OnlyNamespaced,
    /// Both.
    Both,
}

/// What stands before the suffix: a path where paths can be used, else a
/// namespaced name.
pub open spec fn address_prefix(kind: NameKind) -> Seq<char> {
    match kind {
        NameKind::OnlyNamespaced => "@app.world-"@,
        _ => "/tmp/app.world-"@,
    }
}

/// The address for a platform and a suffix.
pub open spec fn address_text(kind: NameKind, suffix: u32) -> Seq<char> {
    address_prefix(kind) + decimal_text(suffix as nat)
}

/// The longest an address can be, in characters and in bytes.
pub const MAX_ADDRESS_LEN: usize = 25;

/// Sessions whose suffixes differ have different addresses, and an address
/// made for paths is never one made for the namespace.
pub proof fn lemma_address_injective(k1: NameKind, s1: u32, k2: NameKind, s2: u32)
    requires
        address_text(k1, s1) == address_text(k2, s2),
    ensures
        s1 == s2,
        address_prefix(k1) == address_prefix(k2),
{
    reveal_strlit("@app.world-");
    reveal_strlit("/tmp/app.world-");
    let p1 = address_prefix(k1);
    let p2 = address_prefix(k2);
    let d1 = decimal_text(s1 as nat);
    let d2 = decimal_text(s2 as nat);
    assert(address_text(k1, s1)[0] == p1[0]);
    assert(address_text(k2, s2)[0] == p2[0]);
    assert(p1 == p2);
    assert((p1 + d1).skip(p1.len() as int) =~= d1);
    assert((p2 + d2).skip(p2.len() as int) =~= d2);
    lemma_decimal_text_injective(s1 as nat, s2 as nat);
}

/// An address is plain ASCII of at most [`MAX_ADDRESS_LEN`] characters, one byte
/// each, and holds neither a line feed nor a colon.
pub proof fn lemma_address_shape(kind: NameKind, suffix: u32)
    ensures
        is_ascii_chars(address_text(kind, suffix)),
        address_text(kind, suffix).len() <= MAX_ADDRESS_LEN,
        encode_utf8(address_text(kind, suffix)).len() == address_text(kind, suffix).len(),
        !address_text(kind, suffix).contains('\n'),
        !address_text(kind, suffix).contains(':'),
{
    reveal_strlit("@app.world-");
    reveal_strlit("/tmp/app.world-");
    let prefix = address_prefix(kind);
    let digits = decimal_text(suffix as nat);
    let text = address_text(kind, suffix);
    lemma_decimal_text_digits(suffix as nat);
    lemma_decimal_text_len_u32(suffix as nat);
    assert forall|i: int| 0 <= i < text.len() implies '\0' <= #[trigger] text[i] <= '\u{7f}'
        && text[i] != '\n' && text[i] != ':' by {
        if i >= prefix.len() {
            assert(text[i] == digits[i - prefix.len()]);
        } else {
            assert(text[i] == prefix[i]);
        }
    }
    is_ascii_chars_encode_utf8(text);
}

/// `NameTypeSupport::query` of `interprocess`: the kinds of names that this
/// platform accepts. The answer is the platform's, so nothing is claimed of
/// it; the three variants are carried over one for one.
#[verifier::external_body]
pub(crate) fn platform_name_kind() -> NameKind {
    match interprocess::local_socket::NameTypeSupport::query() {
        interprocess::local_socket::NameTypeSupport::OnlyPaths => NameKind::OnlyPaths,
        interprocess::local_socket::NameTypeSupport::OnlyNamespaced => NameKind::OnlyNamespaced,
        interprocess::local_socket::NameTypeSupport::Both => NameKind::Both,
    }
}

/// `rand::random` at `u32`: a number drawn from the thread's random number
/// generator. Every value can come back, so nothing is claimed of it.
#[verifier::external_body]
pub(crate) fn random_suffix() -> u32 {
    rand::random::<u32>()
}

/// The address for a platform and a suffix.
pub fn channel_address(kind: NameKind, suffix: u32) -> (address: String)
    ensures
        address@ == address_text(kind, suffix),
{
    let mut address = match kind {
        NameKind::OnlyNamespaced => String::from_str("@app.world-"),
        _ => String::from_str("/tmp/app.world-"),
    };
    push_decimal(&mut address, suffix);
    address
}

/// A new address for this platform, with a random suffix.
///
/// The suffix is not cryptographic: it guards against two sessions meeting by
/// accident, not against an adversary.
pub fn fresh_address() -> (address: String)
    ensures
        exists|kind: NameKind, suffix: u32| address@ == address_text(kind, suffix),
{
    let kind = platform_name_kind();
    let suffix = random_suffix();
    channel_address(kind, suffix)
}

/// The argument that hands `address` to a companion: the scheme `ipc`, a
/// colon, and the address.
pub open spec fn ipc_argument_text(address: Seq<char>) -> Seq<char> {
    "ipc:"@ + address
}

/// The address that an argument of a companion carries: what follows `ipc:`,
/// where the argument begins so.
pub open spec fn argument_address(arg: Seq<char>) -> Option<Seq<char>> {
    if "ipc:"@.is_prefix_of(arg) {
        Some(arg.skip(4))
    } else {
        None
    }
}

/// A companion that reads the argument made for an address finds that address.
pub proof fn lemma_ipc_argument_round_trip(address: Seq<char>)
    ensures
        argument_address(ipc_argument_text(address)) == Some(address),
{
    reveal_strlit("ipc:");
    assert(ipc_argument_text(address).skip(4) =~= address);
    assert(ipc_argument_text(address).subrange(0, 4) =~= "ipc:"@);
}

/// The argument that hands `address` to a companion.
pub fn ipc_argument(address: &str) -> (arg: String)
    ensures
        arg@ == ipc_argument_text(address@),
{
    let mut arg = String::from_str("ipc:");
    arg.append(address);
    arg
}

/// The address in an argument of the form `ipc:<address>`; `None` for any
/// other argument.
pub fn address_of_argument(arg: &str) -> (address: Option<String>)
    ensures
        match address {
            Some(a) => argument_address(arg@) == Some(a@),
            None => argument_address(arg@) is None,
        },
{
    proof {
        reveal_strlit("ipc:");
    }
    let len = arg.unicode_len();
    if len < 4 {
        return None;
    }
    if arg.get_char(0) != 'i' || arg.get_char(1) != 'p' || arg.get_char(2) != 'c' || arg.get_char(
        3,
    ) != ':' {
        assert(arg@.subrange(0, 4)[0] == arg@[0]);
        assert(arg@.subrange(0, 4)[1] == arg@[1]);
        assert(arg@.subrange(0, 4)[2] == arg@[2]);
        assert(arg@.subrange(0, 4)[3] == arg@[3]);
        return None;
    }
    assert(arg@.subrange(0, 4) =~= "ipc:"@);
    let rest = arg.substring_char(4, len);
    assert(rest@ =~= arg@.skip(4));
    Some(String::from_str(rest))
}

} // verus!
