//! What holds across the library's functions.
use vstd::prelude::*;
use vstd::utf8::*;
use crate::commands::{arg_text, ArgView};
use crate::commands::ldns::{
    apply_option, attached_arg, is_short_option, legacy_finish, legacy_values, missing_value_message, take_positional, is_end_of_options, is_known_short, is_long_option, ldns_error_message, legacy_outcome,
    legacy_parse, plain_error, LegacyAcc,
};
use crate::commands::nsec3hash::{alg_of_text, iterations_of_text, mnemonic_of};
use crate::error::exit_code_of;
use crate::text::{all_digits, decimal_digits, decimal_of, file_name_of};
use crate::invocation_outcome;

verus! {

/// For every supported algorithm, its number written in decimal and its
/// mnemonic parse to the same algorithm: that number.
pub proof fn lemma_number_and_mnemonic_agree(code: u8, number: Seq<char>, mnemonic: Seq<char>)
    requires
        mnemonic_of(code) is Some,
        decimal_of(number) == Some(code as nat),
        encode_utf8(mnemonic) == mnemonic_of(code)->0,
    ensures
        alg_of_text(number) == alg_of_text(mnemonic),
        alg_of_text(number) == Ok::<u8, Seq<char>>(code),
{
    if decimal_of(mnemonic) is Some {
        let d = decimal_digits(mnemonic);
        assert(all_digits(d));
        assert(is_ascii_chars(mnemonic)) by {
            assert forall|i: int| 0 <= i < mnemonic.len() implies '\0' <= #[trigger] mnemonic[i]
                <= '\u{7f}' by {
                if mnemonic[0] == '+' {
                    if i > 0 {
                        assert(d[i - 1] == mnemonic[i]);
                    }
                } else {
                    assert(d[i] == mnemonic[i]);
                }
            }
        }
        is_ascii_chars_encode_utf8(mnemonic);
        assert(encode_utf8(mnemonic)[0] == mnemonic[0] as u8);
        if mnemonic[0] != '+' {
            assert(d[0] == mnemonic[0]);
        }
    }
}

/// Of two domain names given to `ldns-nsec3-hash`, only the first is used:
/// the outcome is that of the first alone, and the second raises no error.
pub proof fn lemma_extra_name_ignored(first: Seq<char>, second: Seq<char>)
    requires
        !(first.len() >= 2 && first[0] == '-'),
        !(second.len() >= 2 && second[0] == '-'),
    ensures
        legacy_outcome(seq![ArgView::Text(first), ArgView::Text(second)]) == legacy_outcome(
            seq![ArgView::Text(first)],
        ),
{
    let two = seq![ArgView::Text(first), ArgView::Text(second)];
    let one = seq![ArgView::Text(first)];
    assert(two.drop_first() =~= seq![ArgView::Text(second)]);
    assert(one.drop_first() =~= Seq::<ArgView>::empty());
    assert(seq![ArgView::Text(second)].drop_first() =~= Seq::<ArgView>::empty());
    let acc = crate::commands::ldns::legacy_start();
    let tail = seq![ArgView::Text(second)];
    match take_positional(acc, ArgView::Text(first)) {
        Ok(a) => {
            assert(legacy_parse(two, acc) == legacy_parse(tail, a));
            assert(legacy_parse(tail, a) == legacy_parse(Seq::<ArgView>::empty(), a));
            assert(legacy_parse(one, acc) == legacy_parse(Seq::<ArgView>::empty(), a));
        },
        Err(_) => {},
    }
}

/// A text that starts with `-` is neither an algorithm nor a count of
/// iterations.
proof fn lemma_dash_text_refused(t: Seq<char>)
    requires
        t.len() > 0,
        t[0] == '-',
    ensures
        alg_of_text(t) is Err,
        iterations_of_text(t) is Err,
{
    assert(decimal_digits(t) == t);
    assert(!all_digits(t));
    let first = seq![t[0]];
    assert(first.drop_first() =~= Seq::<char>::empty());
    assert(is_ascii_chars(first));
    is_ascii_chars_encode_utf8(first);
    assert(encode_utf8(first) == encode_scalar(t[0] as u32));
    assert(encode_utf8(t)[0] == encode_scalar(t[0] as u32)[0]);
}

/// A long option before any `--`, and not just after a bare `-s`, makes the
/// parse fail from any state.
proof fn lemma_long_option_fails_from(args: Seq<ArgView>, acc: LegacyAcc, k: int)
    requires
        0 <= k < args.len(),
        is_long_option(arg_text(args[k])),
        forall|j: int| 0 <= j < k ==> !is_end_of_options(#[trigger] arg_text(args[j])),
        k > 0 ==> arg_text(args[k - 1]) != seq!['-', 's'],
    ensures
        legacy_parse(args, acc) is Err,
    decreases args.len(),
{
    let rest = args.drop_first();
    if k > 0 {
        assert(!is_end_of_options(arg_text(args[0])));
        assert forall|j: int| 0 <= j < k - 1 implies !is_end_of_options(
            #[trigger] arg_text(rest[j]),
        ) by {
            assert(rest[j] == args[j + 1]);
        }
        assert forall|a: LegacyAcc| true implies #[trigger] legacy_parse(rest, a) is Err by {
            lemma_long_option_fails_from(rest, a, k - 1);
        }
        if k > 1 {
            let rest2 = rest.drop_first();
            assert forall|j: int| 0 <= j < k - 2 implies !is_end_of_options(
                #[trigger] arg_text(rest2[j]),
            ) by {
                assert(rest2[j] == args[j + 2]);
            }
            assert forall|a: LegacyAcc| true implies #[trigger] legacy_parse(rest2, a) is Err by {
                lemma_long_option_fails_from(rest2, a, k - 2);
            }
        }
    }
    let t = arg_text(args[0]);
    if is_end_of_options(t) {
        assert(k == 0);
    } else if is_long_option(t) {
    } else if is_short_option(t) {
        let c = t[1];
        if !is_known_short(c) {
        } else if t.len() > 2 {
            match apply_option(acc, c, attached_arg(args[0])) {
                Ok(a) => {
                    assert(legacy_parse(rest, a) is Err);
                },
                Err(_) => {},
            }
        } else {
            if k == 1 {
                if c == 's' {
                    assert(t =~= seq!['-', 's']);
                }
                if rest[0] is Text {
                    lemma_dash_text_refused(rest[0]->Text_0);
                }
            }
            match apply_option(acc, c, rest[0]) {
                Ok(a) => {
                    assert(legacy_parse(rest.drop_first(), a) is Err);
                },
                Err(_) => {},
            }
        }
    } else {
        match take_positional(acc, args[0]) {
            Ok(a) => {
                assert(legacy_parse(rest, a) is Err);
            },
            Err(_) => {},
        }
    }
}

/// A long option, written as text or not, makes `ldns-nsec3-hash` fail,
/// whatever other options and names are present, where no `--` before it
/// ends the options and it does not follow a bare `-s`, whose value it would
/// be.
pub proof fn lemma_long_option_fails(args: Seq<ArgView>, k: int)
    requires
        0 <= k < args.len(),
        is_long_option(arg_text(args[k])),
        forall|j: int| 0 <= j < k ==> !is_end_of_options(#[trigger] arg_text(args[j])),
        k > 0 ==> arg_text(args[k - 1]) != seq!['-', 's'],
    ensures
        legacy_outcome(args) is Err,
{
    lemma_long_option_fails_from(args, crate::commands::ldns::legacy_start(), k);
}

/// An argument that is no option: it does not start with `-` and one more
/// character.
pub open spec fn is_plain_value(t: Seq<char>) -> bool {
    !(t.len() >= 2 && t[0] == '-')
}

/// Once `ldns-nsec3-hash` has its domain name, any further positional
/// argument, a valid name or not, is ignored: dropping it changes nothing.
pub proof fn lemma_later_positional_ignored(acc: LegacyAcc, d: ArgView, ys: Seq<ArgView>)
    requires
        acc.name is Some,
        is_plain_value(arg_text(d)),
    ensures
        legacy_parse(seq![d] + ys, acc) == legacy_parse(ys, acc),
{
    assert((seq![d] + ys).drop_first() =~= ys);
    assert((seq![d] + ys)[0] == d);
}

/// After `--`, once the name is taken, every argument is ignored.
proof fn lemma_values_keep_name(ys: Seq<ArgView>, acc: LegacyAcc)
    requires
        acc.name is Some,
    ensures
        legacy_values(ys, acc) == legacy_finish(acc),
    decreases ys.len(),
{
    if ys.len() > 0 {
        lemma_values_keep_name(ys.drop_first(), acc);
    }
}

/// Once `ldns-nsec3-hash` has its domain name, a successful parse keeps it:
/// the command hashes the first name given, whatever follows.
pub proof fn lemma_first_name_kept(ys: Seq<ArgView>, acc: LegacyAcc)
    requires
        acc.name is Some,
    ensures
        legacy_parse(ys, acc) is Ok ==> legacy_parse(ys, acc)->Ok_0.name == acc.name->0,
    decreases ys.len(),
{
    if ys.len() > 0 {
        let rest = ys.drop_first();
        let t = arg_text(ys[0]);
        if is_end_of_options(t) {
            lemma_values_keep_name(rest, acc);
        } else if is_long_option(t) {
        } else if is_short_option(t) {
            let c = t[1];
            if !is_known_short(c) {
            } else if t.len() > 2 {
                match apply_option(acc, c, attached_arg(ys[0])) {
                    Ok(a) => {
                        lemma_first_name_kept(rest, a);
                    },
                    Err(_) => {},
                }
            } else if rest.len() > 0 {
                match apply_option(acc, c, rest[0]) {
                    Ok(a) => {
                        lemma_first_name_kept(rest.drop_first(), a);
                    },
                    Err(_) => {},
                }
            }
        } else {
            lemma_first_name_kept(rest, acc);
        }
    }
}

/// An option `-a`, `-s` or `-t` at the end, with no value after it, fails
/// with the message that names it, whatever the earlier arguments gathered.
pub proof fn lemma_option_without_value(acc: LegacyAcc, c: char)
    requires
        is_known_short(c),
    ensures
        legacy_parse(seq![ArgView::Text(seq!['-', c])], acc) == Err::<
            crate::commands::nsec3hash::Nsec3HashView,
            Seq<char>,
        >(missing_value_message(c)),
{
    assert(seq![ArgView::Text(seq!['-', c])].drop_first() =~= Seq::<ArgView>::empty());
}

/// Invoked as `ldns-nsec3-hash` with no further arguments, the tool fails
/// for the missing domain name, with exit code 1.
pub proof fn lemma_legacy_without_arguments(path: Seq<char>)
    requires
        file_name_of(path) == Some("ldns-nsec3-hash"@),
    ensures
        invocation_outcome(seq![ArgView::Text(path)]) == Some(
            Err::<crate::commands::nsec3hash::Nsec3HashView, _>(
                plain_error(ldns_error_message("Missing domain name argument"@)),
            ),
        ),
        exit_code_of(plain_error(ldns_error_message("Missing domain name argument"@)).usage) == 1,
{
    assert(seq![ArgView::Text(path)].drop_first() =~= Seq::<ArgView>::empty());
}

} // verus!
