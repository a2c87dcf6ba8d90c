//! What holds of the texts that a connection needs before it can be opened.

use vstd::prelude::*;
use vstd::utf8::is_ascii_chars;

use crate::prep::{
    decimal, gateway_url, has_shards, keepalive_name, parsed_url, safe_address, safe_to_parse,
    versioned,
};

verus! {

/// The number that `text` stands for in decimal.
pub open spec fn number(text: Seq<char>) -> int
    decreases text.len(),
{
    if text.len() == 0 {
        0
    } else {
        10 * number(text.drop_last()) + (text.last() as int - '0' as int)
    }
}

/// A number in decimal stands for that number, and is made of digits, of which
/// there is one at least, and the first of several is not 0.
pub proof fn law_decimal_stands_for_its_number(n: nat)
    ensures
        number(decimal(n)) == n,
        decimal(n).len() > 0,
        forall|i: int| 0 <= i < decimal(n).len() ==> '0' <= #[trigger] decimal(n)[i] <= '9',
        decimal(n).len() > 1 ==> decimal(n)[0] != '0',
        n > 0 ==> decimal(n)[0] != '0',
    decreases n,
{
    let text = decimal(n);
    if n < 10 {
        assert(text.drop_last() =~= Seq::<char>::empty());
        assert(number(text.drop_last()) == 0);
    } else {
        let front = decimal(n / 10);
        law_decimal_stands_for_its_number(n / 10);
        assert(text.drop_last() =~= front);
        assert(text[0] == front[0]);
        assert forall|i: int| 0 <= i < text.len() implies '0' <= #[trigger] text[i] <= '9' by {
            if i < front.len() {
                assert(text[i] == front[i]);
            }
        }
    }
}

/// The thread of a shard is named by the shard's number and the number of the
/// last shard; that of a shard on its own is named so.
pub proof fn law_threads_are_named_by_their_shard(info: [u8; 2])
    requires
        info@[1] > 0,
    ensures
        keepalive_name(None) == "serenity keepalive [unsharded]"@,
        keepalive_name(Some(info)) == "serenity keepalive [shard "@ + decimal(info@[0] as nat)
            + "/"@ + decimal((info@[1] - 1) as nat) + "]"@,
{
}

/// A shard on its own needs no others, and one of several needs some.
pub proof fn law_only_none_of_several_is_without_shards(info: [u8; 2])
    ensures
        has_shards(None),
        has_shards(Some(info)) <==> info@[1] != 0,
{
}

/// The URL of the gateway is what its address, followed by the version, stands
/// for.
pub proof fn law_addresses_are_followed_by_the_version(base: Seq<char>)
    ensures
        versioned(base) == base + "?v=6"@,
        gateway_url(base) == parsed_url(base + "?v=6"@),
{
    reveal_strlit("?v=");
    reveal_strlit("?v=6");
    assert(decimal(6) =~= seq!['6']) by {
        assert(54u8 as char == '6');
    }
    assert(versioned(base) =~= base + "?v=6"@);
}

/// An address is refused to be parsed exactly where it is, with the version, too
/// long for what it holds.
pub proof fn law_addresses_are_safe_up_to_a_length(base: Seq<char>)
    ensures
        safe_address(base) == safe_to_parse(base + "?v=6"@),
        safe_address(base) <==> {
            ||| base.len() <= 210
            ||| base.len() <= 1923 && is_ascii_chars(base)
            ||| base.len() <= 0x7fff_fffb && is_ascii_chars(base) && !base.contains('%')
        },
{
    law_addresses_are_followed_by_the_version(base);
    reveal_strlit("?v=6");
    let text = base + "?v=6"@;
    assert(text.len() == base.len() + 4);
    if is_ascii_chars(base) {
        assert forall|i: int| 0 <= i < text.len() implies '\0' <= #[trigger] text[i] <= '\u{7f}' by {
            if i < base.len() {
                assert(text[i] == base[i]);
            }
        }
        if text.contains('%') {
            let k = choose|k: int| 0 <= k < text.len() && text[k] == '%';
            assert(base[k] == '%');
        }
        if base.contains('%') {
            let k = choose|k: int| 0 <= k < base.len() && base[k] == '%';
            assert(text[k] == '%');
        }
    }
    if is_ascii_chars(text) {
        assert forall|i: int| 0 <= i < base.len() implies '\0' <= #[trigger] base[i] <= '\u{7f}' by {
            assert(text[i] == base[i]);
        }
    }
}

} // verus!
