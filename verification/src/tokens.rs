use vstd::prelude::*;
use vstd::string::StringExecFns;

verus! {

/// Tokens of an optional flag with an argument: the flag and the value when
/// present, nothing at all when absent.
pub open spec fn opt_tokens(flag: Seq<char>, v: Option<Seq<char>>) -> Seq<Seq<char>> {
    match v {
        Some(s) => seq![flag, s],
        None => seq![],
    }
}

/// Tokens of a boolean switch: the bare flag when on, nothing when off.
pub open spec fn switch_token(flag: Seq<char>, on: bool) -> Seq<Seq<char>> {
    if on {
        seq![flag]
    } else {
        seq![]
    }
}

/// Tokens of a switch held in an option: the bare flag only when the option
/// holds `true`.
pub open spec fn opt_switch_token(flag: Seq<char>, v: Option<bool>) -> Seq<Seq<char>> {
    match v {
        Some(on) => switch_token(flag, on),
        None => seq![],
    }
}

/// Tokens of a repeated flag with an argument: one `flag value` pair per
/// element, in list order.
pub open spec fn repeated_tokens(flag: Seq<char>, items: Seq<Seq<char>>) -> Seq<Seq<char>>
    decreases items.len(),
{
    if items.len() == 0 {
        Seq::empty()
    } else {
        repeated_tokens(flag, items.drop_last()) + seq![flag, items.last()]
    }
}

/// Tokens of an optional numeric flag: the flag and the decimal rendering of
/// the value when present, nothing when absent.
pub open spec fn opt_num_tokens(flag: Seq<char>, v: Option<u32>) -> Seq<Seq<char>> {
    match v {
        Some(n) => seq![flag, dec_seq(n as nat)],
        None => seq![],
    }
}

/// The single `chart:version` token naming one chart artifact.
pub open spec fn chart_version_token(chart: Seq<char>, version: Seq<char>) -> Seq<char> {
    chart + seq![':'] + version
}

/// The single `key=value` token of one override pair.
pub open spec fn kv_token(key: Seq<char>, value: Seq<char>) -> Seq<char> {
    key + seq!['='] + value
}

/// Tokens of the override pairs: one `--set key=value` occurrence per pair,
/// in insertion order, so that later duplicates win downstream.
pub open spec fn set_tokens(pairs: Seq<(Seq<char>, Seq<char>)>) -> Seq<Seq<char>>
    decreases pairs.len(),
{
    if pairs.len() == 0 {
        Seq::empty()
    } else {
        set_tokens(pairs.drop_last()) + seq!["--set"@, kv_token(pairs.last().0, pairs.last().1)]
    }
}

/// A repeated flag contributes two tokens per element.
pub proof fn lemma_repeated_tokens_len(flag: Seq<char>, items: Seq<Seq<char>>)
    ensures
        repeated_tokens(flag, items).len() == 2 * items.len(),
    decreases items.len(),
{
    if items.len() > 0 {
        lemma_repeated_tokens_len(flag, items.drop_last());
    }
}

/// The override pairs contribute two tokens per pair.
pub proof fn lemma_set_tokens_len(pairs: Seq<(Seq<char>, Seq<char>)>)
    ensures
        set_tokens(pairs).len() == 2 * pairs.len(),
    decreases pairs.len(),
{
    if pairs.len() > 0 {
        lemma_set_tokens_len(pairs.drop_last());
    }
}

/// Append one literal token to an argument vector.
pub fn push_token(out: &mut Vec<String>, tok: &str)
    ensures
        final(out).deep_view() == old(out).deep_view().push(tok@),
{
    out.push(tok.to_owned());
    proof {
        assert(out.deep_view() =~= old(out).deep_view().push(tok@));
    }
}

/// Append one owned token to an argument vector.
pub fn push_string(out: &mut Vec<String>, tok: String)
    ensures
        final(out).deep_view() == old(out).deep_view().push(tok@),
{
    let ghost v = tok@;
    out.push(tok);
    proof {
        assert(out.deep_view() =~= old(out).deep_view().push(v));
    }
}

/// Whether element `j` of a repeated flag renders at its place in the
/// vector: the flag at position `2 j`, the element right after.
pub open spec fn repeated_item_rendered(flag: Seq<char>, items: Seq<Seq<char>>, j: int) -> bool {
    repeated_tokens(flag, items).subrange(2 * j, 2 * j + 2) == seq![flag, items[j]]
}

/// Law: N elements of a repeated flag render as exactly N `flag value`
/// occurrences, two tokens each, in list order.
pub proof fn lemma_repeated_tokens_items(flag: Seq<char>, items: Seq<Seq<char>>)
    ensures
        repeated_tokens(flag, items).len() == 2 * items.len(),
        forall|j: int| 0 <= j < items.len() ==> #[trigger] repeated_item_rendered(flag, items, j),
    decreases items.len(),
{
    lemma_repeated_tokens_len(flag, items);
    if items.len() > 0 {
        let prefix = items.drop_last();
        lemma_repeated_tokens_items(flag, prefix);
        assert forall|j: int| 0 <= j < items.len() implies #[trigger] repeated_item_rendered(
            flag,
            items,
            j,
        ) by {
            lemma_repeated_tokens_len(flag, prefix);
            if j < prefix.len() {
                assert(repeated_item_rendered(flag, prefix, j));
                assert(repeated_tokens(flag, items).subrange(2 * j, 2 * j + 2) =~= repeated_tokens(
                    flag,
                    prefix,
                ).subrange(2 * j, 2 * j + 2));
            } else {
                assert(repeated_tokens(flag, items).subrange(2 * j, 2 * j + 2) =~= seq![
                    flag,
                    items[j],
                ]);
            }
        }
    }
}

/// Whether override pair `j` renders at its place in the vector: the `--set`
/// flag at position `2 j`, the `key=value` token right after.
pub open spec fn set_pair_rendered(pairs: Seq<(Seq<char>, Seq<char>)>, j: int) -> bool {
    set_tokens(pairs).subrange(2 * j, 2 * j + 2) == seq![
        "--set"@,
        kv_token(pairs[j].0, pairs[j].1),
    ]
}

/// Law: N override pairs render as exactly N `--set key=value` occurrences,
/// two tokens each, in insertion order, so that a later duplicate key stands
/// after an earlier one.
pub proof fn lemma_set_tokens_pairs(pairs: Seq<(Seq<char>, Seq<char>)>)
    ensures
        set_tokens(pairs).len() == 2 * pairs.len(),
        forall|j: int| 0 <= j < pairs.len() ==> #[trigger] set_pair_rendered(pairs, j),
    decreases pairs.len(),
{
    lemma_set_tokens_len(pairs);
    if pairs.len() > 0 {
        let prefix = pairs.drop_last();
        lemma_set_tokens_pairs(prefix);
        assert forall|j: int| 0 <= j < pairs.len() implies #[trigger] set_pair_rendered(
            pairs,
            j,
        ) by {
            lemma_set_tokens_len(prefix);
            if j < prefix.len() {
                assert(set_pair_rendered(prefix, j));
                assert(set_tokens(pairs).subrange(2 * j, 2 * j + 2) =~= set_tokens(
                    prefix,
                ).subrange(2 * j, 2 * j + 2));
            } else {
                assert(set_tokens(pairs).subrange(2 * j, 2 * j + 2) =~= seq![
                    "--set"@,
                    kv_token(pairs[j].0, pairs[j].1),
                ]);
            }
        }
    }
}

/// Append the tokens of an optional flag with an argument.
pub fn push_opt(out: &mut Vec<String>, flag: &str, v: &Option<String>)
    ensures
        final(out).deep_view() == old(out).deep_view() + opt_tokens(flag@, v.deep_view()),
{
    if let Some(s) = v {
        push_token(out, flag);
        push_string(out, s.clone());
    }
    proof {
        assert(out.deep_view() =~= old(out).deep_view() + opt_tokens(flag@, v.deep_view()));
    }
}

/// Append the token of a boolean switch.
pub fn push_switch(out: &mut Vec<String>, flag: &str, on: bool)
    ensures
        final(out).deep_view() == old(out).deep_view() + switch_token(flag@, on),
{
    if on {
        push_token(out, flag);
    }
    proof {
        assert(out.deep_view() =~= old(out).deep_view() + switch_token(flag@, on));
    }
}

/// Append the token of a switch held in an option.
pub fn push_opt_switch(out: &mut Vec<String>, flag: &str, v: Option<bool>)
    ensures
        final(out).deep_view() == old(out).deep_view() + opt_switch_token(flag@, v),
{
    if let Some(on) = v {
        if on {
            push_token(out, flag);
        }
    }
    proof {
        assert(out.deep_view() =~= old(out).deep_view() + opt_switch_token(flag@, v));
    }
}

/// Append the tokens of an optional numeric flag.
pub fn push_opt_num(out: &mut Vec<String>, flag: &str, v: Option<u32>)
    ensures
        final(out).deep_view() == old(out).deep_view() + opt_num_tokens(flag@, v),
{
    if let Some(n) = v {
        push_token(out, flag);
        push_string(out, u32_to_dec(n));
    }
    proof {
        assert(out.deep_view() =~= old(out).deep_view() + opt_num_tokens(flag@, v));
    }
}

/// The decimal digit character for a value below ten.
pub open spec fn dec_digit(d: nat) -> char {
    if d == 0 {
        '0'
    } else if d == 1 {
        '1'
    } else if d == 2 {
        '2'
    } else if d == 3 {
        '3'
    } else if d == 4 {
        '4'
    } else if d == 5 {
        '5'
    } else if d == 6 {
        '6'
    } else if d == 7 {
        '7'
    } else if d == 8 {
        '8'
    } else {
        '9'
    }
}

/// The decimal rendering of `n`, most significant digit first, without
/// leading zeros (a single zero for zero itself).
pub open spec fn dec_seq(n: nat) -> Seq<char>
    decreases n,
{
    if n < 10 {
        seq![dec_digit(n)]
    } else {
        dec_seq(n / 10).push(dec_digit(n % 10))
    }
}

/// The one-character string slice for a decimal digit.
fn dec_digit_str(d: u32) -> (r: &'static str)
    requires
        d < 10,
    ensures
        r@ == seq![dec_digit(d as nat)],
{
    proof {
        reveal_strlit("0");
        reveal_strlit("1");
        reveal_strlit("2");
        reveal_strlit("3");
        reveal_strlit("4");
        reveal_strlit("5");
        reveal_strlit("6");
        reveal_strlit("7");
        reveal_strlit("8");
        reveal_strlit("9");
    }
    let r = match d {
        0 => "0",
        1 => "1",
        2 => "2",
        3 => "3",
        4 => "4",
        5 => "5",
        6 => "6",
        7 => "7",
        8 => "8",
        _ => "9",
    };
    proof {
        assert(r@ =~= seq![dec_digit(d as nat)]);
    }
    r
}

/// Render `n` in decimal.
pub fn u32_to_dec(n: u32) -> (r: String)
    ensures
        r@ == dec_seq(n as nat),
    decreases n,
{
    if n < 10 {
        String::from_str(dec_digit_str(n))
    } else {
        let mut s = u32_to_dec(n / 10);
        s.append(dec_digit_str(n % 10));
        proof {
            assert(s@ =~= dec_seq((n / 10) as nat).push(dec_digit((n % 10) as nat)));
        }
        s
    }
}

} // verus!
