//! Candidate production: turning the bundled emoji table into the display
//! lines that the selector program is offered.
//!
//! Each table entry carries a glyph, a canonical name, and per-language
//! annotations (a spoken-text form and keywords). One display line per
//! entry is built as `"<glyph>: <text>"`, where the text is the description
//! in the requested language; with the fallback switched on, the English
//! description or the canonical name stands in when the requested language
//! has none, and a found native description is extended by the English one.
//! An entry with no usable description (and fallback off) produces no line.

use vstd::prelude::*;
use vstd::string::StrSliceExecFns;
use vstd::string::StringExecFns;

verus! {

/// One language's annotation of a table entry: the language code, an
/// optional spoken-text form, and the keywords of the entry in that
/// language.
pub struct GlyphAnnotation {
    pub lang: String,
    pub tts: Option<String>,
    pub keywords: Vec<String>,
}

/// One entry of the candidate table: the glyph itself, its canonical
/// (English) name, and its annotations, one per language.
pub struct GlyphEntry {
    pub glyph: String,
    pub name: String,
    pub annotations: Vec<GlyphAnnotation>,
}

/// The view of an optional string.
pub open spec fn opt_view(o: Option<String>) -> Option<Seq<char>> {
    match o {
        Some(s) => Some(s@),
        None => None,
    }
}

/// The keywords joined by single spaces: empty for no keywords, otherwise
/// the words with one space between each pair.
pub open spec fn spec_join_keywords(ks: Seq<String>) -> Seq<char>
    decreases ks.len(),
{
    if ks.len() == 0 {
        Seq::empty()
    } else if ks.len() == 1 {
        ks[0]@
    } else {
        spec_join_keywords(ks.drop_last()) + seq![' '] + ks.last()@
    }
}

/// The description one annotation yields: the spoken-text form followed by
/// a space and the joined keywords when a spoken-text form exists; the
/// joined keywords alone when they are non-empty; otherwise nothing.
pub open spec fn spec_annotation_description(a: GlyphAnnotation) -> Option<Seq<char>> {
    let kw = spec_join_keywords(a.keywords@);
    match a.tts {
        Some(t) => Some(t@ + seq![' '] + kw),
        None => if kw.len() > 0 {
            Some(kw)
        } else {
            None
        },
    }
}

/// The first annotation whose language code is `lang`.
pub open spec fn spec_find_annotation(anns: Seq<GlyphAnnotation>, lang: Seq<char>) -> Option<
    GlyphAnnotation,
>
    decreases anns.len(),
{
    if anns.len() == 0 {
        None
    } else if anns[0].lang@ == lang {
        Some(anns[0])
    } else {
        spec_find_annotation(anns.drop_first(), lang)
    }
}

/// The description of an entry in language `lang`: what the first matching
/// annotation yields, if any annotation matches and yields one.
pub open spec fn spec_entry_description(e: GlyphEntry, lang: Seq<char>) -> Option<Seq<char>> {
    match spec_find_annotation(e.annotations@, lang) {
        Some(a) => spec_annotation_description(a),
        None => None,
    }
}

/// The text of an entry's display line, chosen from the native-language
/// description, the English one and the canonical name: with the fallback
/// on, a native description is extended by the English one, and the English
/// description or the canonical name stands in for a missing native one;
/// with the fallback off, only a native description is used.
pub open spec fn spec_candidate_text(
    native: Option<Seq<char>>,
    english: Option<Seq<char>>,
    basic: Seq<char>,
    use_fallback: bool,
) -> Option<Seq<char>> {
    match (native, english) {
        (Some(n), Some(f)) => if use_fallback {
            Some(n + seq![' '] + f)
        } else {
            Some(n)
        },
        (Some(n), None) => Some(n),
        (None, Some(f)) => if use_fallback {
            Some(f)
        } else {
            None
        },
        (None, None) => if use_fallback {
            Some(basic)
        } else {
            None
        },
    }
}

/// A display line: the glyph, a colon and a space, then the text.
pub open spec fn spec_display_line(glyph: Seq<char>, text: Seq<char>) -> Seq<char> {
    glyph + seq![':', ' '] + text
}

/// The display line of one entry, if it yields one.
pub open spec fn spec_entry_line(e: GlyphEntry, lang: Seq<char>, use_fallback: bool) -> Option<
    Seq<char>,
> {
    match spec_candidate_text(
        spec_entry_description(e, lang),
        spec_entry_description(e, "en"@),
        e.name@,
        use_fallback,
    ) {
        Some(t) => Some(spec_display_line(e.glyph@, t)),
        None => None,
    }
}

/// The candidate stream of a table: the display lines of the entries that
/// yield one, in table order.
pub open spec fn spec_render(entries: Seq<GlyphEntry>, lang: Seq<char>, use_fallback: bool) -> Seq<
    Seq<char>,
>
    decreases entries.len(),
{
    if entries.len() == 0 {
        Seq::empty()
    } else {
        let rest = spec_render(entries.drop_last(), lang, use_fallback);
        match spec_entry_line(entries.last(), lang, use_fallback) {
            Some(l) => rest.push(l),
            None => rest,
        }
    }
}

/// Join keywords with single spaces.
pub fn join_keywords(ks: &Vec<String>) -> (r: String)
    ensures
        r@ == spec_join_keywords(ks@),
{
    let mut r = String::new();
    let mut i: usize = 0;
    while i < ks.len()
        invariant
            i <= ks@.len(),
            r@ == spec_join_keywords(ks@.take(i as int)),
        decreases ks@.len() - i,
    {
        if i > 0 {
            r.append(" ");
        }
        r.append(ks[i].as_str());
        proof {
            reveal_strlit(" ");
            let taken = ks@.take(i + 1 as int);
            assert(taken.drop_last() =~= ks@.take(i as int));
            assert(taken.last() == ks@[i as int]);
            assert(r@ =~= spec_join_keywords(taken));
        }
        i += 1;
    }
    proof {
        assert(ks@.take(ks@.len() as int) =~= ks@);
    }
    r
}

/// The description one annotation yields, per `spec_annotation_description`.
pub fn annotation_description(a: &GlyphAnnotation) -> (r: Option<String>)
    ensures
        opt_view(r) == spec_annotation_description(*a),
{
    let kw = join_keywords(&a.keywords);
    match &a.tts {
        Some(t) => {
            let mut s = t.clone();
            s.append(" ");
            s.append(kw.as_str());
            proof {
                reveal_strlit(" ");
                assert(s@ =~= t@ + seq![' '] + kw@);
            }
            Some(s)
        },
        None => {
            if kw.as_str().unicode_len() > 0 {
                Some(kw)
            } else {
                None
            }
        },
    }
}

/// The description of an entry in language `lang`: the first annotation
/// with that language code decides, per `spec_entry_description`.
pub fn entry_description(e: &GlyphEntry, lang: &String) -> (r: Option<String>)
    ensures
        opt_view(r) == spec_entry_description(*e, lang@),
{
    let n: usize = e.annotations.len();
    let mut i: usize = 0;
    proof {
        assert(e.annotations@.skip(0) =~= e.annotations@);
    }
    while i < n
        invariant
            i <= n,
            n == e.annotations@.len(),
            spec_find_annotation(e.annotations@, lang@) == spec_find_annotation(
                e.annotations@.skip(i as int),
                lang@,
            ),
        decreases n - i,
    {
        let a = &e.annotations[i];
        proof {
            assert(e.annotations@.skip(i as int)[0] == e.annotations@[i as int]);
        }
        if a.lang == *lang {
            return annotation_description(a);
        }
        proof {
            assert(e.annotations@.skip(i as int).drop_first() =~= e.annotations@.skip(i + 1 as int));
        }
        i += 1;
    }
    proof {
        assert(e.annotations@.skip(n as int) =~= Seq::<GlyphAnnotation>::empty());
    }
    None
}

/// The display line of one entry: the glyph, a colon and a space, then the
/// chosen text, per `spec_entry_line`; `None` when the entry yields no
/// line.
pub fn entry_line(e: &GlyphEntry, lang: &String, use_fallback: bool) -> (r: Option<String>)
    ensures
        opt_view(r) == spec_entry_line(*e, lang@, use_fallback),
{
    let native = entry_description(e, lang);
    let en = String::from_str("en");
    let english = entry_description(e, &en);
    let text: Option<String> = match (native, english) {
        (Some(n), Some(f)) => {
            if use_fallback {
                let mut s = n;
                s.append(" ");
                s.append(f.as_str());
                proof {
                    reveal_strlit(" ");
                    assert(s@ =~= spec_entry_description(*e, lang@)->0 + seq![' ']
                        + spec_entry_description(*e, "en"@)->0);
                }
                Some(s)
            } else {
                Some(n)
            }
        },
        (Some(n), None) => Some(n),
        (None, Some(f)) => {
            if use_fallback {
                Some(f)
            } else {
                None
            }
        },
        (None, None) => {
            if use_fallback {
                Some(e.name.clone())
            } else {
                None
            }
        },
    };
    match text {
        Some(t) => {
            let mut line = e.glyph.clone();
            line.append(": ");
            line.append(t.as_str());
            proof {
                reveal_strlit(": ");
                assert(line@ =~= spec_display_line(e.glyph@, t@));
            }
            Some(line)
        },
        None => None,
    }
}

/// Render the candidate stream of a table: the display lines of the
/// entries that yield one, in table order, per `spec_render`.
pub fn render_candidates(entries: &Vec<GlyphEntry>, lang: &String, use_fallback: bool) -> (r: Vec<
    String,
>)
    ensures
        r.deep_view() == spec_render(entries@, lang@, use_fallback),
{
    let mut out: Vec<String> = Vec::new();
    let mut i: usize = 0;
    while i < entries.len()
        invariant
            i <= entries@.len(),
            out.deep_view() == spec_render(entries@.take(i as int), lang@, use_fallback),
        decreases entries@.len() - i,
    {
        let ghost prev = out.deep_view();
        match entry_line(&entries[i], lang, use_fallback) {
            Some(l) => {
                out.push(l);
                proof {
                    assert(out.deep_view() =~= prev.push(l@));
                }
            },
            None => {
            },
        }
        proof {
            let taken = entries@.take(i + 1 as int);
            assert(taken.drop_last() =~= entries@.take(i as int));
            assert(taken.last() == entries@[i as int]);
        }
        i += 1;
    }
    proof {
        assert(entries@.take(entries@.len() as int) =~= entries@);
    }
    out
}

/// Relies on `emoji::lookup_by_glyph::iter_emoji`: it yields every entry of
/// the crate's bundled static emoji table. Each entry is converted field
/// for field; nothing is promised of the table's content.
#[verifier::external_body]
fn glyph_table() -> (r: Vec<GlyphEntry>) {
    emoji::lookup_by_glyph::iter_emoji().map(
        |e| GlyphEntry {
            glyph: e.glyph.to_string(),
            name: e.name.to_string(),
            annotations: e.annotations.iter().map(
                |a| GlyphAnnotation {
                    lang: a.lang.to_string(),
                    tts: a.tts.map(|t| t.to_string()),
                    keywords: a.keywords.iter().map(|k| k.to_string()).collect(),
                },
            ).collect(),
        },
    ).collect()
}

/// The candidate stream of one invocation: a faithful rendering, per
/// `spec_render`, of the bundled emoji table in the requested language.
/// Whatever table the bundle holds, every line is the display line of one
/// of its entries, in table order.
pub fn candidate_stream(lang: &String, use_fallback: bool) -> (r: Vec<String>)
    ensures
        exists|entries: Seq<GlyphEntry>|
            r.deep_view() == spec_render(entries, lang@, use_fallback),
{
    let table = glyph_table();
    let r = render_candidates(&table, lang, use_fallback);
    proof {
        assert(r.deep_view() == spec_render(table@, lang@, use_fallback));
    }
    r
}

} // verus!
