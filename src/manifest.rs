use vstd::prelude::*;

verus! {

/// The manifest's line for one file, without its line break.
pub open spec fn line_of(path: Seq<char>) -> Seq<char> {
    seq!['f', 'i', 'l', 'e', ' '] + path
}

/// The manifest for `files`: for each file in order, its line and a line
/// break.
pub open spec fn manifest_of(files: Seq<Seq<char>>) -> Seq<char>
    decreases files.len(),
{
    if files.len() == 0 {
        Seq::empty()
    } else {
        line_of(files[0]) + seq!['\n'] + manifest_of(files.drop_first())
    }
}

/// The lines of a text: the pieces between line breaks, where a final line
/// break ends the last line and opens no new one.
pub open spec fn lines_of(t: Seq<char>) -> Seq<Seq<char>>
    decreases t.len(),
{
    if t.len() == 0 {
        Seq::empty()
    } else {
        let rest = lines_of(t.drop_first());
        if t[0] == '\n' {
            seq![Seq::empty()] + rest
        } else if rest.len() == 0 {
            seq![seq![t[0]]]
        } else {
            rest.update(0, seq![t[0]] + rest[0])
        }
    }
}

proof fn lemma_manifest_push(files: Seq<Seq<char>>, p: Seq<char>)
    ensures
        manifest_of(files.push(p)) == manifest_of(files) + line_of(p) + seq!['\n'],
    decreases files.len(),
{
    if files.len() == 0 {
        assert(files.push(p).drop_first() =~= files);
        assert(manifest_of(files.push(p)) =~= manifest_of(files) + line_of(p) + seq!['\n']);
    } else {
        assert(files.push(p).drop_first() =~= files.drop_first().push(p));
        lemma_manifest_push(files.drop_first(), p);
        assert(manifest_of(files.push(p)) =~= manifest_of(files) + line_of(p) + seq!['\n']);
    }
}

proof fn lemma_lines_of_line(s: Seq<char>, rest: Seq<char>)
    requires
        !s.contains('\n'),
    ensures
        lines_of(s + seq!['\n'] + rest) == seq![s] + lines_of(rest),
    decreases s.len(),
{
    let t = s + seq!['\n'] + rest;
    if s.len() == 0 {
        assert(t.drop_first() =~= rest);
        assert(s =~= Seq::<char>::empty());
        assert(t[0] == '\n');
    } else {
        let s1 = s.drop_first();
        assert(!s1.contains('\n')) by {
            if s1.contains('\n') {
                let j = choose|j: int| 0 <= j < s1.len() && s1[j] == '\n';
                assert(s[j + 1] == '\n');
            }
        }
        assert(t.drop_first() =~= s1 + seq!['\n'] + rest);
        lemma_lines_of_line(s1, rest);
        assert(s[0] != '\n');
        assert(t[0] == s[0]);
        assert(seq![s[0]] + s1 =~= s);
        assert(lines_of(t) =~= seq![s] + lines_of(rest));
    }
}

/// Each file gives exactly one line of the manifest, `file ` followed by its
/// path, in the order of the files; this holds where no path holds a line
/// break.
pub proof fn lemma_manifest_lines(files: Seq<Seq<char>>)
    requires
        forall|i: int| 0 <= i < files.len() ==> !(#[trigger] files[i]).contains('\n'),
    ensures
        lines_of(manifest_of(files)) == files.map_values(|p: Seq<char>| line_of(p)),
    decreases files.len(),
{
    if files.len() == 0 {
        assert(files.map_values(|p: Seq<char>| line_of(p)) =~= Seq::empty());
    } else {
        let l = line_of(files[0]);
        assert(!l.contains('\n')) by {
            if l.contains('\n') {
                let j = choose|j: int| 0 <= j < l.len() && l[j] == '\n';
                if j >= 5 {
                    assert(files[0][j - 5] == '\n');
                }
            }
        }
        lemma_lines_of_line(l, manifest_of(files.drop_first()));
        assert forall|i: int| 0 <= i < files.drop_first().len() implies !(
        #[trigger] files.drop_first()[i]).contains('\n') by {
            assert(files.drop_first()[i] == files[i + 1]);
        }
        lemma_manifest_lines(files.drop_first());
        assert(files.map_values(|p: Seq<char>| line_of(p)) =~= seq![l]
            + files.drop_first().map_values(|p: Seq<char>| line_of(p)));
    }
}

/// The manifest's text for `files`, in their order.
pub fn manifest_contents(files: &Vec<String>) -> (r: String)
    ensures
        r@ == manifest_of(files.deep_view()),
{
    let ghost fv = files.deep_view();
    let mut r = String::new();
    let mut i: usize = 0;
    while i < files.len()
        invariant
            i <= files.len(),
            fv == files.deep_view(),
            r@ == manifest_of(fv.take(i as int)),
        decreases files.len() - i,
    {
        proof {
            reveal_strlit("file ");
            reveal_strlit("\n");
            assert(fv.take(i + 1) =~= fv.take(i as int).push(fv[i as int]));
            lemma_manifest_push(fv.take(i as int), fv[i as int]);
        }
        r.append("file ");
        r.append(files[i].as_str());
        r.append("\n");
        proof {
            assert(r@ =~= manifest_of(fv.take(i + 1)));
        }
        i = i + 1;
    }
    assert(fv.take(files.len() as int) =~= fv);
    r
}

} // verus!
