use vstd::prelude::*;

verus! {

/// A saved search recipe, as it is stored in a pattern file.
#[derive(Debug, Clone)]
pub struct PatternRecord {
    /// Engine flags written as one string, such as `-Hnri`.
    pub flags: Option<String>,
    /// A single search pattern; it wins over `patterns` when both are present.
    pub pattern: Option<String>,
    /// Patterns that are searched for as one alternation group.
    pub patterns: Option<Vec<String>>,
    /// The search program to run; the default engine when absent.
    pub engine: Option<String>,
}

/// The engine run when a record names none.
pub open spec fn default_engine() -> Seq<char> {
    seq!['g', 'r', 'e', 'p']
}

/// What a record holds to search for.
pub enum Content {
    /// One pattern, used as it is.
    Single(Seq<char>),
    /// Several patterns, at least one, searched for as alternatives.
    Multiple(Seq<Seq<char>>),
    /// Nothing usable.
    Missing,
}

impl PatternRecord {
    /// The patterns listed under `patterns`, as text.
    pub open spec fn pattern_list(&self) -> Option<Seq<Seq<char>>> {
        match self.patterns {
            Some(v) => Some(v.deep_view()),
            None => None,
        }
    }

    /// What the record searches for: `pattern` if present, else a non-empty `patterns`.
    pub open spec fn content(&self) -> Content {
        match self.pattern {
            Some(p) => Content::Single(p@),
            None => match self.pattern_list() {
                Some(ps) => if ps.len() > 0 {
                    Content::Multiple(ps)
                } else {
                    Content::Missing
                },
                None => Content::Missing,
            },
        }
    }

    /// The engine that the record runs.
    pub open spec fn engine_name(&self) -> Seq<char> {
        match self.engine {
            Some(e) => e@,
            None => default_engine(),
        }
    }

    /// The flags of the record; an empty string counts as none.
    pub open spec fn flag_text(&self) -> Option<Seq<char>> {
        match self.flags {
            Some(f) => if f@.len() > 0 {
                Some(f@)
            } else {
                None
            },
            None => None,
        }
    }
}

} // verus!
