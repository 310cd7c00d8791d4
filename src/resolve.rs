use vstd::prelude::*;
use crate::error::GfError;
use crate::record::{Content, PatternRecord, default_engine};

verus! {

/// The patterns of `ps` joined with `|` between neighbours.
pub open spec fn joined(ps: Seq<Seq<char>>) -> Seq<char>
    decreases ps.len(),
{
    if ps.len() == 0 {
        Seq::empty()
    } else if ps.len() == 1 {
        ps[0]
    } else {
        joined(ps.drop_last()) + seq!['|'] + ps.last()
    }
}

/// The alternation group of `ps`: their join, wrapped in one pair of parentheses.
pub open spec fn alternation(ps: Seq<Seq<char>>) -> Seq<char> {
    seq!['('] + joined(ps) + seq![')']
}

/// The pattern string that a record resolves to, if it holds one.
pub open spec fn resolved_pattern(rec: PatternRecord) -> Option<Seq<char>> {
    match rec.content() {
        Content::Single(p) => Some(p),
        Content::Multiple(ps) => Some(alternation(ps)),
        Content::Missing => None,
    }
}

/// A record turned into what the engine is run with.
#[derive(Debug, Clone)]
pub struct Resolved {
    /// The search program.
    pub engine: String,
    /// The flags, absent when the record has none or only an empty string.
    pub flags: Option<String>,
    /// The final search pattern.
    pub pattern: String,
}

/// Joins the patterns with `|` and wraps the result in parentheses.
pub fn alternation_group(ps: &Vec<String>) -> (r: String)
    ensures
        r@ == alternation(ps.deep_view()),
{
    proof {
        reveal_strlit("");
        reveal_strlit("|");
        reveal_strlit("(");
        reveal_strlit(")");
    }
    let mut s = String::from_str("");
    assert(s@ =~= joined(ps.deep_view().take(0)));
    let mut i: usize = 0;
    while i < ps.len()
        invariant
            i <= ps.len(),
            s@ == joined(ps.deep_view().take(i as int)),
            ""@ == Seq::<char>::empty(),
            "|"@ == seq!['|'],
        decreases ps.len() - i,
    {
        let ghost t = ps.deep_view().take(i as int + 1);
        proof {
            assert(t.drop_last() =~= ps.deep_view().take(i as int));
            assert(t.last() == ps.deep_view()[i as int]);
        }
        if i > 0 {
            s.append("|");
        }
        s.append(ps[i].as_str());
        proof {
            if i == 0 {
                assert(s@ =~= t[0]);
            } else {
                assert(s@ =~= joined(t.drop_last()) + seq!['|'] + t.last());
            }
        }
        i = i + 1;
    }
    assert(ps.deep_view().take(ps.len() as int) =~= ps.deep_view());
    let mut r = String::from_str("(");
    r.append(s.as_str());
    r.append(")");
    assert(r@ =~= alternation(ps.deep_view()));
    r
}

/// The pattern string of a record: `pattern` as it is if present, else the
/// alternation group of a non-empty `patterns`, else nothing.
pub fn resolve_pattern(rec: &PatternRecord) -> (r: Option<String>)
    ensures
        match r {
            Some(s) => resolved_pattern(*rec) == Some(s@),
            None => resolved_pattern(*rec) is None,
        },
{
    match &rec.pattern {
        Some(p) => Some(p.clone()),
        None => match &rec.patterns {
            Some(ps) => if ps.len() > 0 {
                Some(alternation_group(ps))
            } else {
                None
            },
            None => None,
        },
    }
}

/// The engine a record runs: its own, or the default one.
pub fn resolve_engine(rec: &PatternRecord) -> (r: String)
    ensures
        r@ == rec.engine_name(),
{
    match &rec.engine {
        Some(e) => e.clone(),
        None => {
            proof {
                reveal_strlit("grep");
            }
            let r = String::from_str("grep");
            assert(r@ =~= default_engine());
            r
        },
    }
}

/// The flags of a record, with an empty string taken as none.
pub fn resolve_flags(rec: &PatternRecord) -> (r: Option<String>)
    ensures
        match r {
            Some(f) => rec.flag_text() == Some(f@),
            None => rec.flag_text() is None,
        },
{
    match &rec.flags {
        Some(f) => if f.as_str().unicode_len() > 0 {
            Some(f.clone())
        } else {
            None
        },
        None => None,
    }
}

/// Resolves the record read from the file at `path`, or fails with
/// `NoPatternContent` naming that path when it holds nothing to search for.
pub fn resolve(rec: &PatternRecord, path: &str) -> (r: Result<Resolved, GfError>)
    ensures
        match r {
            Ok(v) => resolved_pattern(*rec) == Some(v.pattern@)
                && v.engine@ == rec.engine_name()
                && match v.flags {
                    Some(f) => rec.flag_text() == Some(f@),
                    None => rec.flag_text() is None,
                },
            Err(e) => resolved_pattern(*rec) is None
                && (e matches GfError::NoPatternContent(p) && p@ == path@),
        },
{
    match resolve_pattern(rec) {
        Some(pattern) => Ok(
            Resolved { engine: resolve_engine(rec), flags: resolve_flags(rec), pattern },
        ),
        None => Err(GfError::NoPatternContent(String::from_str(path))),
    }
}

} // verus!
