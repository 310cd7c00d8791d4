use vstd::prelude::*;

verus! {

/// The extension that marks a pattern file, with its dot.
pub open spec fn pattern_suffix() -> Seq<char> {
    seq!['.', 'j', 's', 'o', 'n']
}

/// The name of the file that holds the pattern `name`.
pub open spec fn file_name_of(name: Seq<char>) -> Seq<char> {
    name + pattern_suffix()
}

/// The pattern name that a directory entry stands for: the entry's stem when
/// its extension is `json`. An entry whose only dot leads it has no extension.
pub open spec fn name_of_entry(entry: Seq<char>) -> Option<Seq<char>> {
    if entry.len() > pattern_suffix().len() && entry.subrange(
        entry.len() - pattern_suffix().len(),
        entry.len() as int,
    ) == pattern_suffix() {
        Some(entry.subrange(0, entry.len() - pattern_suffix().len()))
    } else {
        None
    }
}

/// The pattern names among `entries`, in their order.
pub open spec fn names_in(entries: Seq<Seq<char>>) -> Seq<Seq<char>>
    decreases entries.len(),
{
    if entries.len() == 0 {
        Seq::empty()
    } else {
        let rest = names_in(entries.drop_last());
        match name_of_entry(entries.last()) {
            Some(n) => rest.push(n),
            None => rest,
        }
    }
}

/// The file name for the pattern `name`.
pub fn pattern_file_name(name: &str) -> (r: String)
    ensures
        r@ == file_name_of(name@),
{
    proof {
        reveal_strlit(".json");
    }
    let mut r = String::from_str(name);
    r.append(".json");
    assert(r@ =~= file_name_of(name@));
    r
}

/// The pattern name of a directory entry, if it is a pattern file.
pub fn pattern_name_of(entry: &str) -> (r: Option<String>)
    ensures
        match r {
            Some(n) => name_of_entry(entry@) == Some(n@),
            None => name_of_entry(entry@) is None,
        },
{
    let n = entry.unicode_len();
    if n <= 5 {
        return None;
    }
    let stem = entry.substring_char(0, n - 5);
    let ext = entry.substring_char(n - 5, n);
    proof {
        reveal_strlit(".json");
    }
    let suffix = String::from_str(".json");
    let same = String::from_str(ext) == suffix;
    assert(suffix@ =~= pattern_suffix());
    if same {
        Some(String::from_str(stem))
    } else {
        None
    }
}

/// The pattern names in a directory listing: none when the directory does not
/// exist, else the stem of each entry whose extension is `json`, in listing order.
pub fn pattern_names(dir_exists: bool, entries: &Vec<String>) -> (r: Vec<String>)
    ensures
        !dir_exists ==> r@.len() == 0,
        dir_exists ==> r.deep_view() == names_in(entries.deep_view()),
{
    let mut out: Vec<String> = Vec::new();
    if !dir_exists {
        return out;
    }
    let mut i: usize = 0;
    while i < entries.len()
        invariant
            i <= entries.len(),
            out.deep_view() == names_in(entries.deep_view().take(i as int)),
        decreases entries.len() - i,
    {
        let ghost t = entries.deep_view().take(i as int + 1);
        proof {
            assert(t.drop_last() =~= entries.deep_view().take(i as int));
            assert(t.last() == entries.deep_view()[i as int]);
        }
        let ghost before = out.deep_view();
        match pattern_name_of(entries[i].as_str()) {
            Some(n) => {
                out.push(n);
                assert(out.deep_view() =~= before.push(name_of_entry(t.last())->0));
            },
            None => {},
        }
        i = i + 1;
    }
    assert(entries.deep_view().take(entries.len() as int) =~= entries.deep_view());
    out
}

/// The pattern directory under the home directory: `.config/gf` when it
/// exists, else `.gf`.
pub fn pattern_dir_under_home(config_dir_exists: bool) -> (r: String)
    ensures
        config_dir_exists ==> r@ == ".config/gf"@,
        !config_dir_exists ==> r@ == ".gf"@,
{
    if config_dir_exists {
        String::from_str(".config/gf")
    } else {
        String::from_str(".gf")
    }
}

/// The stem of a pattern file's name is the pattern's name again.
pub proof fn lemma_entry_names_pattern(name: Seq<char>)
    requires
        name.len() > 0,
    ensures
        name_of_entry(file_name_of(name)) == Some(name),
{
    let f = file_name_of(name);
    assert(f.subrange(f.len() - 5, f.len() as int) =~= pattern_suffix());
    assert(f.subrange(0, f.len() - 5) =~= name);
}

/// A name listed once is listed among more entries too.
proof fn lemma_names_grow(entries: Seq<Seq<char>>, k: int, name: Seq<char>)
    requires
        0 <= k <= entries.len(),
        names_in(entries.take(k)).contains(name),
    ensures
        names_in(entries).contains(name),
    decreases entries.len() - k,
{
    if k < entries.len() {
        let t = entries.take(k + 1);
        assert(t.drop_last() =~= entries.take(k));
        let rest = names_in(entries.take(k));
        let j = choose|j: int| 0 <= j < rest.len() && rest[j] == name;
        match name_of_entry(t.last()) {
            Some(n) => {
                assert(names_in(t) == rest.push(n));
                assert(names_in(t)[j] == name);
            },
            None => {},
        }
        lemma_names_grow(entries, k + 1, name);
    } else {
        assert(entries.take(k) =~= entries);
    }
}

/// Once the file of a pattern `name` stands in the pattern directory, listing
/// the directory yields `name`.
pub proof fn lemma_saved_name_listed(name: Seq<char>, entries: Seq<Seq<char>>)
    requires
        name.len() > 0,
        entries.contains(file_name_of(name)),
    ensures
        names_in(entries).contains(name),
{
    let i = choose|i: int| 0 <= i < entries.len() && entries[i] == file_name_of(name);
    lemma_entry_names_pattern(name);
    let t = entries.take(i + 1);
    assert(t.drop_last() =~= entries.take(i));
    assert(t.last() == file_name_of(name));
    let rest = names_in(entries.take(i));
    assert(names_in(t) == rest.push(name));
    assert(names_in(t)[rest.len() as int] == name);
    lemma_names_grow(entries, i + 1, name);
}

} // verus!
