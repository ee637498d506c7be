use vstd::prelude::*;

verus! {

/// The extension that the standard library reads off a path given as text:
/// what follows the last `.` of the final component. A component with no
/// `.`, or whose only `.` is its first character, has none.
pub uninterp spec fn extension_of(path: Seq<char>) -> Option<Seq<char>>;

/// Relies on `std::path::Path::extension`, whose result depends on the path's
/// text alone; the extension of a path that is text is text too.
#[verifier::external_body]
fn path_extension(path: &str) -> (r: Option<String>)
    ensures
        match r {
            Some(e) => extension_of(path@) == Some(e@),
            None => extension_of(path@) is None,
        },
{
    std::path::Path::new(path).extension().and_then(|e| e.to_str()).map(String::from)
}

/// The extensions of the audio files that are joined; the match is exact, so
/// case counts.
pub open spec fn supported_ext(e: Seq<char>) -> bool {
    e == seq!['m', 'p', '3'] || e == seq!['w', 'a', 'v']
}

/// A path is kept when it has an extension and that extension is supported.
pub open spec fn is_audio_path(path: Seq<char>) -> bool {
    match extension_of(path) {
        Some(e) => supported_ext(e),
        None => false,
    }
}

/// A directory entry as discovery sees it: its path, `None` where the path
/// could not be read as text, and whether it is a regular file.
pub type EntryView = (Option<Seq<char>>, bool);

/// The entry is kept: a regular file, named by text, with a supported
/// extension.
pub open spec fn is_kept(e: EntryView) -> bool {
    e.1 && (e.0 matches Some(p) && is_audio_path(p))
}

/// The path of an entry that is text.
pub open spec fn entry_path(e: EntryView) -> Seq<char> {
    e.0.unwrap_or(Seq::empty())
}

/// The paths of the entries that discovery keeps, in their order.
pub open spec fn audio_files(entries: Seq<EntryView>) -> Seq<Seq<char>>
    decreases entries.len(),
{
    if entries.len() == 0 {
        Seq::empty()
    } else {
        let rest = audio_files(entries.drop_last());
        if is_kept(entries.last()) {
            rest.push(entry_path(entries.last()))
        } else {
            rest
        }
    }
}

/// Discovery keeps exactly the kept entries, in their order: every file it
/// gives is a kept entry's path, and it gives each kept entry's path; nothing
/// but the kind of the entry and its extension decides.
pub proof fn lemma_audio_files_exact(entries: Seq<EntryView>)
    ensures
        forall|i: int| 0 <= i < audio_files(entries).len() ==> is_audio_path(#[trigger] audio_files(entries)[i]),
        audio_files(entries) == entries.filter(|e: EntryView| is_kept(e)).map_values(|e: EntryView| entry_path(e)),
    decreases entries.len(),
{
    reveal(Seq::filter);
    if entries.len() > 0 {
        lemma_audio_files_exact(entries.drop_last());
        let f = |e: EntryView| is_kept(e);
        let g = |e: EntryView| entry_path(e);
        let before = entries.drop_last().filter(f);
        if f(entries.last()) {
            assert(entries.filter(f) == before.push(entries.last()));
            assert(entries.filter(f).map_values(g) =~= before.map_values(g).push(g(entries.last())));
        } else {
            assert(entries.filter(f) == before);
        }
    }
}

proof fn lemma_audio_files_prefix(entries: Seq<EntryView>, n: int)
    requires
        0 <= n <= entries.len(),
    ensures
        audio_files(entries.take(n)).len() <= audio_files(entries).len(),
        forall|k: int| 0 <= k < audio_files(entries.take(n)).len() ==> audio_files(entries)[k]
            == #[trigger] audio_files(entries.take(n))[k],
    decreases entries.len() - n,
{
    if n == entries.len() {
        assert(entries.take(n) =~= entries);
    } else {
        lemma_audio_files_prefix(entries, n + 1);
        let t = entries.take(n + 1);
        assert(t.drop_last() =~= entries.take(n));
        let small = audio_files(entries.take(n));
        let big = audio_files(t);
        assert(big == small || big == small.push(entry_path(t.last())));
        assert forall|k: int| 0 <= k < small.len() implies audio_files(entries)[k] == #[trigger] small[k] by {
            assert(big[k] == small[k]);
        }
    }
}

proof fn lemma_audio_files_at(entries: Seq<EntryView>, i: int)
    requires
        0 <= i < entries.len(),
        is_kept(entries[i]),
    ensures
        audio_files(entries.take(i)).len() < audio_files(entries.take(i + 1)).len(),
        audio_files(entries.take(i + 1)).len() <= audio_files(entries).len(),
        audio_files(entries)[audio_files(entries.take(i)).len() as int] == entry_path(entries[i]),
{
    let t = entries.take(i + 1);
    assert(t.drop_last() =~= entries.take(i));
    assert(t.last() == entries[i]);
    lemma_audio_files_prefix(entries, i + 1);
    let c = audio_files(entries.take(i)).len() as int;
    assert(audio_files(t) == audio_files(entries.take(i)).push(entry_path(entries[i])));
    assert(audio_files(t)[c] == entry_path(entries[i]));
}

proof fn lemma_audio_files_grow(entries: Seq<EntryView>, n: int, m: int)
    requires
        0 <= n <= m <= entries.len(),
    ensures
        audio_files(entries.take(n)).len() <= audio_files(entries.take(m)).len(),
{
    lemma_audio_files_prefix(entries.take(m), n);
    assert(entries.take(m).take(n) =~= entries.take(n));
}

/// Discovery keeps the order of the listing: of two kept entries, the
/// earlier one's path comes first in what it gives.
pub proof fn lemma_audio_files_keep_order(entries: Seq<EntryView>, i: int, j: int)
    requires
        0 <= i < j < entries.len(),
        is_kept(entries[i]),
        is_kept(entries[j]),
    ensures
        exists|a: int, b: int|
            0 <= a < b < audio_files(entries).len() && audio_files(entries)[a] == entry_path(entries[i])
                && audio_files(entries)[b] == entry_path(entries[j]),
{
    lemma_audio_files_at(entries, i);
    lemma_audio_files_at(entries, j);
    lemma_audio_files_grow(entries, i + 1, j);
    let a = audio_files(entries.take(i)).len() as int;
    let b = audio_files(entries.take(j)).len() as int;
    assert(0 <= a < b < audio_files(entries).len());
}

/// Tells whether `ext` is one of the supported extensions.
pub fn is_supported_extension(ext: &str) -> (r: bool)
    ensures
        r == supported_ext(ext@),
{
    if ext.unicode_len() != 3 {
        return false;
    }
    let a = ext.get_char(0);
    let b = ext.get_char(1);
    let c = ext.get_char(2);
    let r = (a == 'm' && b == 'p' && c == '3') || (a == 'w' && b == 'a' && c == 'v');
    proof {
        if r {
            assert(ext@ =~= seq!['m', 'p', '3'] || ext@ =~= seq!['w', 'a', 'v']);
        }
    }
    r
}

/// Keeps `path` when its extension is supported, and gives `None` otherwise.
pub fn filter_supported_extensions(path: String) -> (r: Option<String>)
    ensures
        is_audio_path(path@) ==> r == Some(path),
        !is_audio_path(path@) ==> r is None,
{
    match path_extension(path.as_str()) {
        Some(e) => {
            if is_supported_extension(e.as_str()) {
                Some(path)
            } else {
                None
            }
        },
        None => None,
    }
}

/// Keeps, in their order, the paths of the entries of a directory listing
/// that are regular files, are text, and have a supported extension. Each
/// entry is its path, `None` where it is not text, and whether it is a
/// regular file.
pub fn select_audio_files(entries: Vec<(Option<String>, bool)>) -> (r: Vec<String>)
    ensures
        r.deep_view() == audio_files(entries.deep_view()),
{
    let ghost ev = entries.deep_view();
    let mut r: Vec<String> = Vec::new();
    let mut i: usize = 0;
    while i < entries.len()
        invariant
            i <= entries.len(),
            ev == entries.deep_view(),
            r.deep_view() == audio_files(ev.take(i as int)),
        decreases entries.len() - i,
    {
        assert(ev.take(i + 1).drop_last() =~= ev.take(i as int));
        let (path, is_file) = &entries[i];
        if *is_file {
            match path {
                Some(p) => {
                    match filter_supported_extensions(p.clone()) {
                        Some(q) => {
                            r.push(q);
                            assert(r.deep_view() =~= audio_files(ev.take(i as int)).push(p@));
                        },
                        None => {},
                    }
                },
                None => {},
            }
        }
        i = i + 1;
    }
    assert(ev.take(entries.len() as int) =~= ev);
    r
}

} // verus!
