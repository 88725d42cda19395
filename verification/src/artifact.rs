//! The artifact filter: recognised segments that only mark non-speech sound
//! are dropped before the segments are joined into a transcript.

use crate::text::{
    ascii_lower, ascii_lowered, from_chars, same_text, to_ascii_lower, to_chars, trim_bounds,
    trimmed,
};
use vstd::prelude::*;

verus! {

/// The text is wrapped in one pair of square or round brackets.
pub open spec fn bracket_wrapped(t: Seq<char>) -> bool {
    &&& t.len() >= 2
    &&& (t.first() == '[' && t.last() == ']') || (t.first() == '(' && t.last() == ')')
}

/// The fixed vocabulary of non-speech markers, in lower case.
pub open spec fn in_vocabulary(w: Seq<char>) -> bool {
    ||| w == "blank_audio"@
    ||| w == "blank audio"@
    ||| w == "silence"@
    ||| w == "music"@
    ||| w == "applause"@
    ||| w == "laughter"@
    ||| w == "inaudible"@
    ||| w == "no-speech"@
    ||| w == "no-audio"@
}

/// A segment is an artifact if, trimmed, it is empty, or it is wrapped in
/// brackets around a word of the vocabulary in any ASCII case.
pub open spec fn is_artifact(segment: Seq<char>) -> bool {
    let t = trimmed(segment);
    ||| t.len() == 0
    ||| (bracket_wrapped(t) && in_vocabulary(ascii_lowered(t.subrange(1, t.len() - 1))))
}

/// The segments that are speech, in their order.
pub open spec fn speech_segments(segments: Seq<Seq<char>>) -> Seq<Seq<char>>
    decreases segments.len(),
{
    if segments.len() == 0 {
        Seq::empty()
    } else if is_artifact(segments.last()) {
        speech_segments(segments.drop_last())
    } else {
        speech_segments(segments.drop_last()).push(segments.last())
    }
}

/// The segments written one after the other, with nothing between them.
pub open spec fn joined(segments: Seq<Seq<char>>) -> Seq<char>
    decreases segments.len(),
{
    if segments.len() == 0 {
        Seq::empty()
    } else {
        joined(segments.drop_last()) + segments.last()
    }
}

/// The transcript of a recognition: its speech segments joined and trimmed.
pub open spec fn transcript_of(segments: Seq<Seq<char>>) -> Seq<char> {
    trimmed(joined(speech_segments(segments)))
}

/// The texts of a sequence of strings.
pub open spec fn texts_of(segments: Seq<String>) -> Seq<Seq<char>> {
    Seq::new(segments.len(), |i: int| segments[i]@)
}

/// Every segment that the filter keeps is speech.
pub proof fn lemma_speech_segments_are_speech(segments: Seq<Seq<char>>)
    ensures
        forall|i: int|
            0 <= i < speech_segments(segments).len() ==> !is_artifact(
                #[trigger] speech_segments(segments)[i],
            ),
    decreases segments.len(),
{
    if segments.len() > 0 {
        let front = speech_segments(segments.drop_last());
        lemma_speech_segments_are_speech(segments.drop_last());
        let kept = speech_segments(segments);
        assert forall|i: int| 0 <= i < kept.len() implies !is_artifact(#[trigger] kept[i]) by {
            if i < front.len() {
                assert(kept[i] == front[i]);
            }
        }
    }
}

/// The filter keeps a sequence of speech segments as it is.
pub proof fn lemma_speech_is_kept(segments: Seq<Seq<char>>)
    requires
        forall|i: int| 0 <= i < segments.len() ==> !is_artifact(#[trigger] segments[i]),
    ensures
        speech_segments(segments) == segments,
    decreases segments.len(),
{
    if segments.len() > 0 {
        let front = segments.drop_last();
        assert forall|i: int| 0 <= i < front.len() implies !is_artifact(#[trigger] front[i]) by {
            assert(front[i] == segments[i]);
        }
        lemma_speech_is_kept(front);
        assert(front.push(segments.last()) == segments);
    }
}

/// Filtering is idempotent: filtering what the filter kept changes nothing.
pub proof fn lemma_filter_idempotent(segments: Seq<Seq<char>>)
    ensures
        speech_segments(speech_segments(segments)) == speech_segments(segments),
        transcript_of(speech_segments(segments)) == transcript_of(segments),
{
    lemma_speech_segments_are_speech(segments);
    lemma_speech_is_kept(speech_segments(segments));
}

/// Segments that are all artifacts leave no text: their transcript is empty,
/// and is itself an artifact.
pub proof fn lemma_artifacts_leave_nothing(segments: Seq<Seq<char>>)
    requires
        forall|i: int| 0 <= i < segments.len() ==> is_artifact(#[trigger] segments[i]),
    ensures
        speech_segments(segments).len() == 0,
        transcript_of(segments).len() == 0,
        is_artifact(transcript_of(segments)),
    decreases segments.len(),
{
    if segments.len() > 0 {
        let front = segments.drop_last();
        assert forall|i: int| 0 <= i < front.len() implies is_artifact(#[trigger] front[i]) by {
            assert(front[i] == segments[i]);
        }
        lemma_artifacts_leave_nothing(front);
        assert(is_artifact(segments[segments.len() - 1]));
    }
    assert(speech_segments(segments) == Seq::<Seq<char>>::empty());
    let none = Seq::<char>::empty();
    assert(joined(speech_segments(segments)) == none);
    assert(trimmed(none).len() == 0);
    assert(trimmed(trimmed(none)).len() == 0);
}

/// Two segments that are both artifacts leave an empty transcript.
pub proof fn lemma_two_artifacts_leave_nothing(first: Seq<char>, second: Seq<char>)
    requires
        is_artifact(first),
        is_artifact(second),
    ensures
        transcript_of(seq![first, second]).len() == 0,
        is_artifact(transcript_of(seq![first, second])),
{
    lemma_artifacts_leave_nothing(seq![first, second]);
}

/// Whether `word` is one of the non-speech markers.
fn is_marker(word: &Vec<char>) -> (b: bool)
    ensures
        b == in_vocabulary(word@),
{
    same_text(word, &to_chars("blank_audio")) || same_text(word, &to_chars("blank audio"))
        || same_text(word, &to_chars("silence")) || same_text(word, &to_chars("music"))
        || same_text(word, &to_chars("applause")) || same_text(word, &to_chars("laughter"))
        || same_text(word, &to_chars("inaudible")) || same_text(word, &to_chars("no-speech"))
        || same_text(word, &to_chars("no-audio"))
}

/// Whether a recognised segment is a non-speech artifact.
pub fn is_non_speech_artifact(segment: &str) -> (b: bool)
    ensures
        b == is_artifact(segment@),
{
    let chars = to_chars(segment);
    let (a, b) = trim_bounds(&chars);
    if a == b {
        return true;
    }
    if b - a < 2 {
        return false;
    }
    let first = chars[a];
    let last = chars[b - 1];
    let ghost t = trimmed(segment@);
    assert(t.first() == first && t.last() == last);
    if !((first == '[' && last == ']') || (first == '(' && last == ')')) {
        return false;
    }
    let mut inner: Vec<char> = Vec::new();
    let mut i: usize = a + 1;
    while i < b - 1
        invariant
            a + 1 <= i <= b - 1,
            b <= chars.len(),
            inner@.len() == i - (a + 1),
            forall|k: int| 0 <= k < inner@.len() ==> inner@[k] == ascii_lower(chars@[a + 1 + k]),
        decreases b - 1 - i,
    {
        inner.push(to_ascii_lower(chars[i]));
        i = i + 1;
    }
    assert(inner@ =~= ascii_lowered(t.subrange(1, t.len() - 1)));
    is_marker(&inner)
}

/// The transcript of the recognised segments: artifacts are dropped, what is
/// left is joined in recognition order with no separator, and trimmed.
pub fn assemble_transcript(segments: &Vec<String>) -> (text: String)
    ensures
        text@ == transcript_of(texts_of(segments@)),
{
    let ghost all = texts_of(segments@);
    let mut speech: Vec<char> = Vec::new();
    let mut i: usize = 0;
    while i < segments.len()
        invariant
            i <= segments.len(),
            all == texts_of(segments@),
            speech@ == joined(speech_segments(all.take(i as int))),
        decreases segments.len() - i,
    {
        let segment = segments[i].as_str();
        proof {
            assert(all.take(i + 1).drop_last() == all.take(i as int));
            assert(all.take(i + 1).last() == segment@);
        }
        if !is_non_speech_artifact(segment) {
            let ghost before = speech@;
            let chars = to_chars(segment);
            let mut k: usize = 0;
            while k < chars.len()
                invariant
                    k <= chars.len(),
                    speech@ == before + chars@.take(k as int),
                decreases chars.len() - k,
            {
                speech.push(chars[k]);
                k = k + 1;
            }
            proof {
                assert(chars@.take(chars@.len() as int) == chars@);
                let kept = speech_segments(all.take(i as int));
                assert(kept.push(segment@).drop_last() == kept);
            }
        }
        i = i + 1;
    }
    assert(all.take(segments@.len() as int) == all);
    let (a, b) = trim_bounds(&speech);
    from_chars(&speech, a, b)
}

} // verus!
