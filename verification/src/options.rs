use vstd::prelude::*;
use crate::choices::{StyleChoice, StyleChoiceView};

verus! {

/// Lexicographic order on texts, character by character. On `String`s this is the order that
/// `Ord` gives, since UTF-8 keeps the order of code points byte for byte.
pub open spec fn text_le(a: Seq<char>, b: Seq<char>) -> bool
    decreases a.len(),
{
    if a.len() == 0 {
        true
    } else if b.len() == 0 {
        false
    } else if a[0] < b[0] {
        true
    } else if a[0] > b[0] {
        false
    } else {
        text_le(a.drop_first(), b.drop_first())
    }
}

/// Any two texts are ordered one way or the other.
pub proof fn lemma_text_le_total(a: Seq<char>, b: Seq<char>)
    ensures
        text_le(a, b) || text_le(b, a),
    decreases a.len(),
{
    if a.len() > 0 && b.len() > 0 && a[0] == b[0] {
        lemma_text_le_total(a.drop_first(), b.drop_first());
    }
}

/// The order is transitive.
pub proof fn lemma_text_le_transitive(a: Seq<char>, b: Seq<char>, c: Seq<char>)
    requires
        text_le(a, b),
        text_le(b, c),
    ensures
        text_le(a, c),
    decreases a.len(),
{
    if a.len() > 0 && b.len() > 0 && c.len() > 0 && a[0] == b[0] && b[0] == c[0] {
        lemma_text_le_transitive(a.drop_first(), b.drop_first(), c.drop_first());
    }
}

/// Texts in non-decreasing order.
pub open spec fn texts_sorted(s: Seq<Seq<char>>) -> bool {
    forall|i: int, j: int| 0 <= i < j < s.len() ==> text_le(s[i], s[j])
}

/// The texts of a list of strings.
pub open spec fn string_views(s: Seq<String>) -> Seq<Seq<char>> {
    s.map_values(|x: String| x@)
}

proof fn lemma_text_le_skip(a: Seq<char>, b: Seq<char>, i: int)
    requires
        0 <= i <= a.len(),
        i <= b.len(),
        a.subrange(0, i) == b.subrange(0, i),
    ensures
        text_le(a, b) == text_le(a.subrange(i, a.len() as int), b.subrange(i, b.len() as int)),
    decreases i,
{
    if i > 0 {
        assert(a[0] == a.subrange(0, i)[0]);
        assert(b[0] == b.subrange(0, i)[0]);
        let a1 = a.drop_first();
        let b1 = b.drop_first();
        assert(a1.subrange(0, i - 1) =~= a.subrange(0, i).drop_first());
        assert(b1.subrange(0, i - 1) =~= b.subrange(0, i).drop_first());
        lemma_text_le_skip(a1, b1, i - 1);
        assert(a1.subrange(i - 1, a1.len() as int) =~= a.subrange(i, a.len() as int));
        assert(b1.subrange(i - 1, b1.len() as int) =~= b.subrange(i, b.len() as int));
    } else {
        assert(a.subrange(0, a.len() as int) =~= a);
        assert(b.subrange(0, b.len() as int) =~= b);
    }
}

/// Whether `a` comes before `b` or equals it, in the order of `text_le`.
pub fn text_le_exec(a: &str, b: &str) -> (r: bool)
    ensures
        r == text_le(a@, b@),
{
    let la = a.unicode_len();
    let lb = b.unicode_len();
    let mut i: usize = 0;
    while i < la && i < lb
        invariant
            la == a@.len(),
            lb == b@.len(),
            0 <= i <= la,
            i <= lb,
            a@.subrange(0, i as int) == b@.subrange(0, i as int),
        decreases la - i,
    {
        let ca = a.get_char(i);
        let cb = b.get_char(i);
        if ca < cb || ca > cb {
            proof {
                lemma_text_le_skip(a@, b@, i as int);
                let ra = a@.subrange(i as int, la as int);
                let rb = b@.subrange(i as int, lb as int);
                assert(ra[0] == ca);
                assert(rb[0] == cb);
            }
            return ca < cb;
        }
        proof {
            assert(ca == cb);
            assert(a@.subrange(0, i + 1) =~= a@.subrange(0, i as int).push(ca));
            assert(b@.subrange(0, i + 1) =~= b@.subrange(0, i as int).push(cb));
        }
        i = i + 1;
    }
    proof {
        lemma_text_le_skip(a@, b@, i as int);
    }
    i == la
}

/// Whether two texts are equal.
pub fn text_eq_exec(a: &str, b: &str) -> (r: bool)
    ensures
        r == (a@ == b@),
{
    let la = a.unicode_len();
    let lb = b.unicode_len();
    if la != lb {
        return false;
    }
    let mut i: usize = 0;
    while i < la
        invariant
            la == a@.len(),
            lb == b@.len(),
            la == lb,
            0 <= i <= la,
            forall|k: int| 0 <= k < i ==> a@[k] == b@[k],
        decreases la - i,
    {
        if a.get_char(i) != b.get_char(i) {
            return false;
        }
        i = i + 1;
    }
    assert(a@ =~= b@);
    true
}

/// Sorts texts into the order of `text_le`, keeping each one as often as it occurs.
pub fn sort_texts(v: Vec<String>) -> (r: Vec<String>)
    ensures
        texts_sorted(string_views(r@)),
        string_views(r@).to_multiset() == string_views(v@).to_multiset(),
{
    let mut r: Vec<String> = Vec::new();
    let n = v.len();
    let mut v = v;
    let ghost orig = string_views(v@);
    let mut k: usize = 0;
    proof {
        assert(string_views(r@) =~= Seq::<Seq<char>>::empty());
        assert(orig.subrange(0, 0) =~= Seq::<Seq<char>>::empty());
    }
    while k < n
        invariant
            n == v.len(),
            orig == string_views(v@),
            0 <= k <= n,
            texts_sorted(string_views(r@)),
            string_views(r@).to_multiset() == orig.subrange(0, k as int).to_multiset(),
        decreases n - k,
    {
        let x = v[k].clone();
        assert(x@ == orig[k as int]);
        let mut pos: usize = 0;
        while pos < r.len() && text_le_exec(r[pos].as_str(), x.as_str())
            invariant
                0 <= pos <= r.len(),
                forall|j: int| 0 <= j < pos ==> text_le(#[trigger] string_views(r@)[j], x@),
            decreases r.len() - pos,
        {
            pos = pos + 1;
        }
        let ghost before = string_views(r@);
        proof {
            if pos < r.len() {
                lemma_text_le_total(before[pos as int], x@);
            }
        }
        r.insert(pos, x);
        proof {
            let after = string_views(r@);
            assert(after =~= before.insert(pos as int, x@));
            vstd::seq_lib::to_multiset_insert(before, pos as int, x@);
            assert(orig.subrange(0, k + 1) =~= orig.subrange(0, k as int).push(orig[k as int]));
            vstd::seq_lib::to_multiset_build(orig.subrange(0, k as int), orig[k as int]);
            assert forall|i: int, j: int| 0 <= i < j < after.len() implies text_le(
                after[i],
                after[j],
            ) by {
                if j < pos {
                } else if j == pos {
                    assert(after[i] == before[i]);
                } else if i < pos {
                    assert(after[i] == before[i]);
                    assert(after[j] == before[j - 1]);
                    assert(text_le(before[i], x@));
                    lemma_text_le_total(before[pos as int], x@);
                    assert(text_le(x@, before[pos as int]));
                    if j - 1 > pos {
                        lemma_text_le_transitive(x@, before[pos as int], before[j - 1]);
                    }
                    lemma_text_le_transitive(before[i], x@, before[j - 1]);
                } else if i == pos {
                    assert(after[j] == before[j - 1]);
                    lemma_text_le_total(before[pos as int], x@);
                    if j - 1 > pos {
                        lemma_text_le_transitive(x@, before[pos as int], before[j - 1]);
                    }
                } else {
                    assert(after[i] == before[i - 1]);
                    assert(after[j] == before[j - 1]);
                }
            }
        }
        k = k + 1;
    }
    proof {
        assert(orig.subrange(0, n as int) =~= orig);
    }
    r
}

/// One entry of a directory listing, as plain values.
pub struct DirEntryInfo {
    pub name: String,
    pub is_dir: bool,
    pub is_file: bool,
    /// The extension of the file name, as `Path::extension` gives it.
    pub extension: Option<String>,
    /// The file name without its extension, as `Path::file_stem` gives it.
    pub stem: Option<String>,
}

/// Model of a directory entry.
pub struct DirEntryView {
    pub name: Seq<char>,
    pub is_dir: bool,
    pub is_file: bool,
    pub extension: Option<Seq<char>>,
    pub stem: Option<Seq<char>>,
}

pub open spec fn opt_text(s: Option<String>) -> Option<Seq<char>> {
    match s {
        Some(s) => Some(s@),
        None => None,
    }
}

impl View for DirEntryInfo {
    type V = DirEntryView;

    open spec fn view(&self) -> DirEntryView {
        DirEntryView {
            name: self.name@,
            is_dir: self.is_dir,
            is_file: self.is_file,
            extension: opt_text(self.extension),
            stem: opt_text(self.stem),
        }
    }
}

pub open spec fn entry_views(s: Seq<DirEntryInfo>) -> Seq<DirEntryView> {
    s.map_values(|e: DirEntryInfo| e@)
}

/// The names of the sub-directories in a listing, in listing order, leaving out `excluded`.
pub open spec fn dir_names_except(entries: Seq<DirEntryView>, excluded: Seq<char>) -> Seq<
    Seq<char>,
>
    decreases entries.len(),
{
    if entries.len() == 0 {
        Seq::empty()
    } else {
        let rest = dir_names_except(entries.drop_last(), excluded);
        let e = entries.last();
        if e.is_dir && e.name != excluded {
            rest.push(e.name)
        } else {
            rest
        }
    }
}

/// Whether an entry is a style file: a file with the extension `style`.
pub open spec fn is_style_file(e: DirEntryView) -> bool {
    e.is_file && e.extension == Some("style"@)
}

/// Every style file in the listing has a name before its extension.
pub open spec fn style_files_have_stems(entries: Seq<DirEntryView>) -> bool {
    forall|i: int| 0 <= i < entries.len() && is_style_file(#[trigger] entries[i]) ==> entries[i].stem is Some
}

/// The names of the style files in a listing, in listing order.
pub open spec fn style_names(entries: Seq<DirEntryView>) -> Seq<Seq<char>>
    decreases entries.len(),
{
    if entries.len() == 0 {
        Seq::empty()
    } else {
        let rest = style_names(entries.drop_last());
        let e = entries.last();
        if is_style_file(e) {
            rest.push(e.stem->0)
        } else {
            rest
        }
    }
}

/// The style choices of a layout: the default, then the layout's own styles, then the global
/// styles, each group in listing order.
pub open spec fn spec_style_options(layout_dir: Seq<DirEntryView>, global_dir: Seq<DirEntryView>) -> Seq<
    StyleChoiceView,
> {
    seq![StyleChoiceView::Default] + style_names(layout_dir).map_values(
        |s: Seq<char>| StyleChoiceView::Custom(s),
    ) + style_names(global_dir).map_values(|s: Seq<char>| StyleChoiceView::Global(s))
}

pub open spec fn style_choice_views(s: Seq<StyleChoice>) -> Seq<StyleChoiceView> {
    s.map_values(|c: StyleChoice| c@)
}

fn dir_names_except_exec(entries: &Vec<DirEntryInfo>, excluded: &str) -> (r: Vec<String>)
    ensures
        string_views(r@) == dir_names_except(entry_views(entries@), excluded@),
{
    let mut r: Vec<String> = Vec::new();
    let mut i: usize = 0;
    proof {
        assert(entry_views(entries@).subrange(0, 0) =~= Seq::<DirEntryView>::empty());
        assert(string_views(r@) =~= Seq::<Seq<char>>::empty());
    }
    while i < entries.len()
        invariant
            0 <= i <= entries.len(),
            string_views(r@) == dir_names_except(
                entry_views(entries@).subrange(0, i as int),
                excluded@,
            ),
        decreases entries.len() - i,
    {
        let e = &entries[i];
        let ghost prefix = entry_views(entries@).subrange(0, i + 1);
        proof {
            assert(prefix.drop_last() =~= entry_views(entries@).subrange(0, i as int));
            assert(prefix.last() == e@);
        }
        if e.is_dir && !text_eq_exec(e.name.as_str(), excluded) {
            let ghost prev = string_views(r@);
            r.push(e.name.clone());
            proof {
                assert(string_views(r@) =~= prev.push(e.name@));
            }
        }
        i = i + 1;
    }
    proof {
        assert(entry_views(entries@).subrange(0, entries.len() as int) =~= entry_views(entries@));
    }
    r
}

/// The layouts of a category: its sub-directories but `images`, sorted.
pub fn layout_options(entries: &Vec<DirEntryInfo>) -> (r: Vec<String>)
    ensures
        texts_sorted(string_views(r@)),
        string_views(r@).to_multiset() == dir_names_except(
            entry_views(entries@),
            "images"@,
        ).to_multiset(),
{
    sort_texts(dir_names_except_exec(entries, "images"))
}

/// The keyboard categories: the sub-directories of the keyboards directory but `global`,
/// sorted.
pub fn category_options(entries: &Vec<DirEntryInfo>) -> (r: Vec<String>)
    ensures
        texts_sorted(string_views(r@)),
        string_views(r@).to_multiset() == dir_names_except(
            entry_views(entries@),
            "global"@,
        ).to_multiset(),
{
    sort_texts(dir_names_except_exec(entries, "global"))
}

fn append_style_choices(
    out: &mut Vec<StyleChoice>,
    entries: &Vec<DirEntryInfo>,
    global: bool,
)
    requires
        style_files_have_stems(entry_views(entries@)),
    ensures
        style_choice_views(final(out)@) == style_choice_views(old(out)@) + (if global {
            style_names(entry_views(entries@)).map_values(|s: Seq<char>| StyleChoiceView::Global(s))
        } else {
            style_names(entry_views(entries@)).map_values(|s: Seq<char>| StyleChoiceView::Custom(s))
        }),
{
    let ghost start = style_choice_views(out@);
    let ghost mk = if global {
        |s: Seq<char>| StyleChoiceView::Global(s)
    } else {
        |s: Seq<char>| StyleChoiceView::Custom(s)
    };
    let mut i: usize = 0;
    proof {
        assert(entry_views(entries@).subrange(0, 0) =~= Seq::<DirEntryView>::empty());
        assert(style_names(Seq::<DirEntryView>::empty()).map_values(mk) =~= Seq::<StyleChoiceView>::empty());
        assert(start + Seq::<StyleChoiceView>::empty() =~= start);
    }
    let style_ext = String::from_str("style");
    while i < entries.len()
        invariant
            0 <= i <= entries.len(),
            style_ext@ == "style"@,
            style_files_have_stems(entry_views(entries@)),
            mk == (if global {
                |s: Seq<char>| StyleChoiceView::Global(s)
            } else {
                |s: Seq<char>| StyleChoiceView::Custom(s)
            }),
            style_choice_views(out@) == start + style_names(
                entry_views(entries@).subrange(0, i as int),
            ).map_values(mk),
        decreases entries.len() - i,
    {
        let e = &entries[i];
        let ghost prefix = entry_views(entries@).subrange(0, i + 1);
        proof {
            assert(prefix.drop_last() =~= entry_views(entries@).subrange(0, i as int));
            assert(prefix.last() == e@);
            assert(entry_views(entries@)[i as int] == e@);
        }
        let is_style = match &e.extension {
            Some(ext) => e.is_file && text_eq_exec(ext.as_str(), style_ext.as_str()),
            None => false,
        };
        if is_style {
            let stem = match &e.stem {
                Some(s) => s.clone(),
                None => {
                    proof {
                        assert(is_style_file(entry_views(entries@)[i as int]));
                    }
                    String::new()
                },
            };
            let ghost prev = style_choice_views(out@);
            let ghost names = style_names(entry_views(entries@).subrange(0, i as int));
            let choice = if global {
                StyleChoice::Global(stem)
            } else {
                StyleChoice::Custom(stem)
            };
            out.push(choice);
            proof {
                assert(style_names(prefix) =~= names.push(e.stem->0@));
                assert(names.push(e.stem->0@).map_values(mk) =~= names.map_values(mk).push(
                    mk(e.stem->0@),
                ));
                assert(style_choice_views(out@) =~= prev.push(choice@));
                assert(style_choice_views(out@) =~= start + style_names(prefix).map_values(mk));
            }
        } else {
            proof {
                assert(style_names(prefix) == style_names(
                    entry_views(entries@).subrange(0, i as int),
                ));
            }
        }
        i = i + 1;
    }
    proof {
        assert(entry_views(entries@).subrange(0, entries.len() as int) =~= entry_views(entries@));
    }
}

/// The style choices of a layout (see `spec_style_options`), from the listings of the
/// layout's directory and of the global styles directory.
pub fn style_options(layout_dir: &Vec<DirEntryInfo>, global_dir: &Vec<DirEntryInfo>) -> (r: Vec<
    StyleChoice,
>)
    requires
        style_files_have_stems(entry_views(layout_dir@)),
        style_files_have_stems(entry_views(global_dir@)),
    ensures
        style_choice_views(r@) == spec_style_options(
            entry_views(layout_dir@),
            entry_views(global_dir@),
        ),
{
    let mut r: Vec<StyleChoice> = Vec::new();
    r.push(StyleChoice::Default);
    proof {
        assert(style_choice_views(r@) =~= seq![StyleChoiceView::Default]);
    }
    append_style_choices(&mut r, layout_dir, false);
    append_style_choices(&mut r, global_dir, true);
    r
}

} // verus!
