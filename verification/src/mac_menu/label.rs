//! Labels without the marks of mnemonics.
use vstd::prelude::*;

verus! {

/// A label without the marks of mnemonics: a doubled `&` stands for the character itself, any
/// other `&` only marks the character after it.
pub open spec fn stripped(label: Seq<char>) -> Seq<char>
    decreases label.len(),
{
    if label.len() == 0 {
        Seq::empty()
    } else if label[0] != '&' {
        seq![label[0]] + stripped(label.skip(1))
    } else if label.len() > 1 && label[1] == '&' {
        seq!['&'] + stripped(label.skip(2))
    } else {
        stripped(label.skip(1))
    }
}

/// A text as a label that shows just that text: every `&` is doubled.
pub open spec fn escaped(text: Seq<char>) -> Seq<char>
    decreases text.len(),
{
    if text.len() == 0 {
        Seq::empty()
    } else if text[0] == '&' {
        seq!['&', '&'] + escaped(text.skip(1))
    } else {
        seq![text[0]] + escaped(text.skip(1))
    }
}

/// Gives a label without the marks of mnemonics.
pub fn strip_mnemonic(label: &str) -> (r: String)
    ensures
        r@ == stripped(label@),
{
    let mut result: String = String::new();
    let mut marked: bool = false;
    let ghost text = label@;
    proof {
        assert(text.skip(0) =~= text);
        assert(result@ + stripped(text) =~= stripped(text));
    }
    for c in iter: label.chars()
        invariant
            iter.seq() == text,
            0 <= iter.index() <= text.len(),
            result@ + (if marked {
                stripped(seq!['&'] + text.skip(iter.index()))
            } else {
                stripped(text.skip(iter.index()))
            }) == stripped(text),
    {
        let ghost rest = text.skip(iter.index());
        let ghost after = text.skip(iter.index() + 1);
        let ghost before = result@;
        proof {
            assert(rest[0] == c);
            assert(rest.skip(1) =~= after);
            assert((seq!['&'] + rest).skip(1) =~= rest);
            assert((seq!['&'] + rest).skip(2) =~= after);
            assert((seq!['&'] + rest)[1] == c);
            if c == '&' {
                assert(seq!['&'] + after =~= rest);
                assert(stripped(seq!['&'] + rest) == seq!['&'] + stripped(after));
            } else {
                assert(stripped(rest) == seq![c] + stripped(after));
                assert(stripped(seq!['&'] + rest) == stripped(rest));
            }
        }
        if marked {
            result.push(c);
            marked = false;
        } else if c == '&' {
            marked = true;
        } else {
            result.push(c);
        }
        proof {
            assert(before.push(c) + stripped(after) =~= before + (seq![c] + stripped(after)));
        }
    }
    proof {
        assert(text.skip(text.len() as int) =~= Seq::empty());
        assert(seq!['&'] + Seq::<char>::empty() =~= seq!['&']);
        assert(seq!['&'].skip(1) =~= Seq::empty());
        assert(stripped(seq!['&']) =~= Seq::empty());
        assert(result@ + Seq::<char>::empty() =~= result@);
    }
    result
}

/// A label without `&` stays as it is.
pub proof fn law_plain_label_is_kept(label: Seq<char>)
    requires
        !label.contains('&'),
    ensures
        stripped(label) == label,
    decreases label.len(),
{
    if label.len() > 0 {
        assert(label.contains(label[0]));
        assert forall|i: int| 0 <= i < label.skip(1).len() implies label.skip(1)[i] != '&' by {
            assert(label.contains(label[i + 1]));
        }
        law_plain_label_is_kept(label.skip(1));
        assert(seq![label[0]] + label.skip(1) =~= label);
    } else {
        assert(label =~= Seq::empty());
    }
}

/// A text whose every `&` is doubled shows as that text.
pub proof fn law_escaped_text_is_shown(text: Seq<char>)
    ensures
        stripped(escaped(text)) == text,
    decreases text.len(),
{
    if text.len() > 0 {
        let rest = text.skip(1);
        law_escaped_text_is_shown(rest);
        if text[0] == '&' {
            assert((seq!['&', '&'] + escaped(rest)).skip(2) =~= escaped(rest));
        } else {
            assert((seq![text[0]] + escaped(rest)).skip(1) =~= escaped(rest));
        }
        assert(seq![text[0]] + rest =~= text);
    } else {
        assert(text =~= Seq::empty());
    }
}

/// A mark does not show, and changes nothing else: what follows it is shown as it would be
/// without the mark.
pub proof fn law_mark_is_not_shown(before: Seq<char>, after: Seq<char>)
    requires
        !before.contains('&'),
        after.len() == 0 || after[0] != '&',
    ensures
        stripped(before + seq!['&'] + after) == stripped(before + after),
    decreases before.len(),
{
    if before.len() > 0 {
        assert(before.contains(before[0]));
        assert forall|i: int| 0 <= i < before.skip(1).len() implies before.skip(1)[i] != '&' by {
            assert(before.contains(before[i + 1]));
        }
        law_mark_is_not_shown(before.skip(1), after);
        assert((before + seq!['&'] + after).skip(1) =~= before.skip(1) + seq!['&'] + after);
        assert((before + after).skip(1) =~= before.skip(1) + after);
    } else {
        assert(before + seq!['&'] + after =~= seq!['&'] + after);
        assert(before + after =~= after);
        assert((seq!['&'] + after).skip(1) =~= after);
    }
}

} // verus!
