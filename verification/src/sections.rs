use vstd::prelude::*;

use crate::text::{chars_of, copy_range, find_char, find_char_from, lemma_find_char, string_from_chars};

verus! {

/// Whether `a` comes before `b` in the order of `str`: character by character by code point,
/// a proper prefix first.
pub open spec fn text_less(a: Seq<char>, b: Seq<char>) -> bool
    decreases a.len(),
{
    if a.len() == 0 {
        b.len() > 0
    } else if b.len() == 0 {
        false
    } else if a[0] != b[0] {
        (a[0] as int) < (b[0] as int)
    } else {
        text_less(a.drop_first(), b.drop_first())
    }
}

pub proof fn lemma_text_less_irreflexive(a: Seq<char>)
    ensures
        !text_less(a, a),
    decreases a.len(),
{
    if a.len() > 0 {
        lemma_text_less_irreflexive(a.drop_first());
    }
}

pub proof fn lemma_text_less_total(a: Seq<char>, b: Seq<char>)
    ensures
        a != b ==> text_less(a, b) || text_less(b, a),
    decreases a.len(),
{
    if a.len() == 0 && b.len() == 0 {
        assert(a =~= b);
    } else if a.len() == 0 || b.len() == 0 {
    } else if a[0] != b[0] {
        assert((a[0] as int) != (b[0] as int));
    } else {
        lemma_text_less_total(a.drop_first(), b.drop_first());
        if a.drop_first() == b.drop_first() {
            assert(a =~= seq![a[0]] + a.drop_first());
            assert(b =~= seq![b[0]] + b.drop_first());
        }
    }
}

pub proof fn lemma_text_less_transitive(a: Seq<char>, b: Seq<char>, c: Seq<char>)
    requires
        text_less(a, b),
        text_less(b, c),
    ensures
        text_less(a, c),
    decreases a.len(),
{
    if a.len() > 0 && b.len() > 0 && c.len() > 0 && a[0] == b[0] && b[0] == c[0] {
        lemma_text_less_transitive(a.drop_first(), b.drop_first(), c.drop_first());
    }
}

pub proof fn lemma_text_less_asymmetric(a: Seq<char>, b: Seq<char>)
    requires
        text_less(a, b),
    ensures
        !text_less(b, a),
{
    if text_less(b, a) {
        lemma_text_less_transitive(a, b, a);
        lemma_text_less_irreflexive(a);
    }
}

/// Whether `a` comes before `b` in the order of `str`.
pub fn text_less_chars(a: &Vec<char>, b: &Vec<char>) -> (r: bool)
    ensures
        r == text_less(a@, b@),
{
    let n = a.len();
    let m = b.len();
    let mut i: usize = 0;
    assert(a@.skip(0) =~= a@);
    assert(b@.skip(0) =~= b@);
    while i < n && i < m
        invariant
            n == a@.len(),
            m == b@.len(),
            i <= n,
            i <= m,
            text_less(a@, b@) == text_less(a@.skip(i as int), b@.skip(i as int)),
        decreases n - i,
    {
        assert(a@.skip(i as int)[0] == a@[i as int]);
        assert(b@.skip(i as int)[0] == b@[i as int]);
        if a[i] != b[i] {
            return a[i] < b[i];
        }
        assert(a@.skip(i as int).drop_first() =~= a@.skip(i + 1));
        assert(b@.skip(i as int).drop_first() =~= b@.skip(i + 1));
        i = i + 1;
    }
    i == n && i < m
}

/// The map that a list of entries gives, a later entry of a key winning.
pub open spec fn entries_map(es: Seq<(Seq<char>, Seq<char>)>) -> Map<Seq<char>, Seq<char>>
    decreases es.len(),
{
    if es.len() == 0 {
        Map::empty()
    } else {
        entries_map(es.drop_last()).insert(es.last().0, es.last().1)
    }
}

/// Whether the keys of the entries are in increasing order, so no key occurs twice.
pub open spec fn sorted_keys(es: Seq<(Seq<char>, Seq<char>)>) -> bool {
    forall|i: int, j: int| 0 <= i < j < es.len() ==> text_less(#[trigger] es[i].0, #[trigger] es[j].0)
}

proof fn lemma_entries_map_dom(es: Seq<(Seq<char>, Seq<char>)>, k: Seq<char>)
    ensures
        entries_map(es).dom().contains(k) <==> exists|i: int| 0 <= i < es.len() && #[trigger] es[i].0 == k,
    decreases es.len(),
{
    if es.len() > 0 {
        lemma_entries_map_dom(es.drop_last(), k);
        if exists|i: int| 0 <= i < es.len() && #[trigger] es[i].0 == k {
            let i = choose|i: int| 0 <= i < es.len() && #[trigger] es[i].0 == k;
            if i < es.len() - 1 {
                assert(es.drop_last()[i].0 == k);
            }
        }
        if exists|i: int| 0 <= i < es.len() - 1 && #[trigger] es.drop_last()[i].0 == k {
            let i = choose|i: int| 0 <= i < es.len() - 1 && #[trigger] es.drop_last()[i].0 == k;
            assert(es[i].0 == k);
        }
    }
}

proof fn lemma_entries_map_insert(es: Seq<(Seq<char>, Seq<char>)>, p: int, e: (Seq<char>, Seq<char>))
    requires
        0 <= p <= es.len(),
        forall|i: int| 0 <= i < es.len() ==> #[trigger] es[i].0 != e.0,
    ensures
        entries_map(es.insert(p, e)) == entries_map(es).insert(e.0, e.1),
    decreases es.len(),
{
    if p == es.len() {
        assert(es.insert(p, e) =~= es.push(e));
        assert(es.push(e).drop_last() =~= es);
    } else {
        let l = es.last();
        assert(es.insert(p, e).drop_last() =~= es.drop_last().insert(p, e));
        assert(es.insert(p, e).last() == l);
        lemma_entries_map_insert(es.drop_last(), p, e);
        assert(l.0 != e.0);
        assert(entries_map(es.drop_last()).insert(e.0, e.1).insert(l.0, l.1) =~= entries_map(
            es.drop_last(),
        ).insert(l.0, l.1).insert(e.0, e.1));
    }
}

/// Sections of text by heading, kept in the order of their headings.
pub struct TextSections {
    entries: Vec<(String, String)>,
}

/// The headings and texts of a list of entries, as characters.
pub open spec fn entries_text(es: Seq<(String, String)>) -> Seq<(Seq<char>, Seq<char>)> {
    Seq::new(es.len(), |i: int| (es[i].0@, es[i].1@))
}

impl TextSections {
    /// The headings and texts, as characters, in increasing order of heading.
    pub closed spec fn entries_view(&self) -> Seq<(Seq<char>, Seq<char>)> {
        entries_text(self.entries@)
    }

    #[verifier::type_invariant]
    closed spec fn headings_sorted(&self) -> bool {
        sorted_keys(entries_text(self.entries@))
    }

    /// The text of each heading.
    pub open spec fn map(&self) -> Map<Seq<char>, Seq<char>> {
        entries_map(self.entries_view())
    }

    /// No sections.
    pub fn new() -> (r: TextSections)
        ensures
            r.map() == Map::<Seq<char>, Seq<char>>::empty(),
            r.entries_view().len() == 0,
    {
        let r = TextSections { entries: Vec::new() };
        assert(entries_text(r.entries@) =~= Seq::<(Seq<char>, Seq<char>)>::empty());
        r
    }

    /// The number of sections.
    pub fn len(&self) -> (n: usize)
        ensures
            n == self.entries_view().len(),
    {
        self.entries.len()
    }

    /// Whether a heading has a section.
    pub fn contains_key(&self, key: &Vec<char>) -> (b: bool)
        ensures
            b == self.map().dom().contains(key@),
    {
        let ghost es = self.entries_view();
        proof {
            lemma_entries_map_dom(es, key@);
        }
        for i in 0..self.entries.len()
            invariant
                es == self.entries_view(),
                es.len() == self.entries@.len(),
                self.map().dom().contains(key@) <==> exists|j: int| 0 <= j < es.len() && #[trigger] es[j].0 == key@,
                forall|j: int| 0 <= j < i ==> es[j].0 != key@,
        {
            let k = chars_of(self.entries[i].0.as_str());
            assert(es[i as int].0 == self.entries@[i as int].0@);
            if crate::util::same_chars(&k, key) {
                return true;
            }
        }
        false
    }

    /// The text of a heading, if it has a section.
    pub fn get(&self, key: &str) -> (r: Option<String>)
        ensures
            match self.map().get(key@) {
                Some(v) => r matches Some(s) && s@ == v,
                None => r is None,
            },
    {
        let ghost es = self.entries_view();
        let kc = chars_of(key);
        let mut j = self.entries.len();
        assert(es.take(j as int) =~= es);
        while j > 0
            invariant
                j <= es.len(),
                es == self.entries_view(),
                es.len() == self.entries@.len(),
                kc@ == key@,
                self.map().get(key@) == entries_map(es.take(j as int)).get(key@),
            decreases j,
        {
            let k = chars_of(self.entries[j - 1].0.as_str());
            assert(es.take(j as int).drop_last() =~= es.take(j - 1));
            assert(es.take(j as int).last() == es[j - 1]);
            if crate::util::same_chars(&k, &kc) {
                return Some(self.entries[j - 1].1.clone());
            }
            j = j - 1;
        }
        None
    }

    /// The heading and text of the section at position `i`, in increasing order of heading.
    pub fn entry(&self, i: usize) -> (r: (String, String))
        requires
            i < self.entries_view().len(),
        ensures
            r.0@ == self.entries_view()[i as int].0,
            r.1@ == self.entries_view()[i as int].1,
    {
        (self.entries[i].0.clone(), self.entries[i].1.clone())
    }

    /// Adds a section under a heading that has none yet, keeping the headings in order.
    pub fn insert_new(&mut self, key: String, value: String)
        requires
            !old(self).map().dom().contains(key@),
        ensures
            final(self).map() == old(self).map().insert(key@, value@),
    {
        proof {
            use_type_invariant(&*self);
        }
        let ghost es = self.entries_view();
        proof {
            lemma_entries_map_dom(es, key@);
        }
        let kc = chars_of(key.as_str());
        let n = self.entries.len();
        let mut p: usize = 0;
        let mut found = false;
        while p < n && !found
            invariant
                found ==> p < n && text_less(key@, es[p as int].0),
                n == es.len(),
                p <= n,
                es == self.entries_view(),
                es.len() == self.entries@.len(),
                kc@ == key@,
                sorted_keys(es),
                forall|i: int| 0 <= i < es.len() ==> es[i].0 != key@,
                forall|i: int| 0 <= i < p ==> text_less(#[trigger] es[i].0, key@),
            decreases n - p + if found { 0int } else { 1int },
        {
            let k = chars_of(self.entries[p].0.as_str());
            assert(es[p as int].0 == k@);
            if text_less_chars(&kc, &k) {
                found = true;
            } else {
                proof {
                    lemma_text_less_total(es[p as int].0, key@);
                }
                p = p + 1;
            }
        }
        let ghost e = (key@, value@);
        proof {
            assert forall|i: int| p <= i < es.len() implies text_less(key@, #[trigger] es[i].0) by {
                if p < es.len() {
                    if i > p {
                        lemma_text_less_transitive(key@, es[p as int].0, es[i].0);
                    }
                }
            }
            lemma_entries_map_insert(es, p as int, e);
        }
        let mut entries: Vec<(String, String)> = Vec::new();
        std::mem::swap(&mut entries, &mut self.entries);
        assert(entries_text(entries@) == es);
        entries.insert(p, (key, value));
        proof {
            let es2 = entries_text(entries@);
            assert(es2 =~= es.insert(p as int, e));
            assert forall|i: int, j: int| 0 <= i < j < es2.len() implies text_less(
                #[trigger] es2[i].0,
                #[trigger] es2[j].0,
            ) by {
                if j < p {
                } else if j == p {
                } else if i < p {
                    lemma_text_less_transitive(es[i].0, key@, es[j - 1].0);
                } else if i == p {
                } else {
                }
            }
        }
        self.entries = entries;
    }
}


impl TextSections {
    /// A length that no heading exceeds.
    pub fn max_key_len(&self) -> (m: usize)
        ensures
            forall|k: Seq<char>| #[trigger] self.map().dom().contains(k) ==> k.len() <= m,
    {
        let ghost es = self.entries_view();
        let mut m: usize = 0;
        for i in 0..self.entries.len()
            invariant
                es == self.entries_view(),
                es.len() == self.entries@.len(),
                forall|j: int| 0 <= j < i ==> (#[trigger] es[j]).0.len() <= m,
        {
            let k = chars_of(self.entries[i].0.as_str());
            assert(es[i as int].0 == k@);
            if k.len() > m {
                m = k.len();
            }
        }
        proof {
            assert forall|k: Seq<char>| #[trigger] self.map().dom().contains(k) implies k.len() <= m by {
                lemma_entries_map_dom(es, k);
            }
        }
        m
    }
}

/// `n` tabs.
pub open spec fn tabs(n: nat) -> Seq<char> {
    Seq::new(n, |i: int| '\t')
}

/// Whether `n` tabs make `k` a heading that `m` does not have yet, and fewer do not.
pub open spec fn first_free(m: Map<Seq<char>, Seq<char>>, k: Seq<char>, n: nat) -> bool {
    !m.dom().contains(k + tabs(n)) && forall|j: nat| j < n ==> m.dom().contains(#[trigger] (k + tabs(j)))
}

/// `m` with `v` under `k`, or under `k` with as few tabs appended as make it new.
pub open spec fn insert_unique(m: Map<Seq<char>, Seq<char>>, k: Seq<char>, v: Seq<char>) -> Map<
    Seq<char>,
    Seq<char>,
> {
    let n = choose|n: nat| first_free(m, k, n);
    m.insert(k + tabs(n), v)
}

proof fn lemma_first_free_unique(m: Map<Seq<char>, Seq<char>>, k: Seq<char>, a: nat, b: nat)
    requires
        first_free(m, k, a),
        first_free(m, k, b),
    ensures
        a == b,
{
    if a < b {
        assert(m.dom().contains(k + tabs(a)));
    } else if b < a {
        assert(m.dom().contains(k + tabs(b)));
    }
}

/// Adds a section, appending tabs to the heading until no section has it.
pub fn insert_unique_section(sections: &mut TextSections, key: Vec<char>, value: Vec<char>)
    ensures
        final(sections).map() == insert_unique(old(sections).map(), key@, value@),
{
    let ghost m = sections.map();
    let limit = sections.max_key_len();
    let mut k = key.clone();
    let ghost mut n: nat = 0;
    assert(k@ =~= key@ + tabs(0));
    while sections.contains_key(&k)
        invariant
            m == sections.map(),
            forall|x: Seq<char>| #[trigger] m.dom().contains(x) ==> x.len() <= limit,
            k@ == key@ + tabs(n),
            forall|j: nat| j < n ==> m.dom().contains(#[trigger] (key@ + tabs(j))),
        decreases limit + 1 - k@.len(),
    {
        assert(m.dom().contains(k@));
        k.push('\t');
        proof {
            n = n + 1;
            assert(k@ =~= key@ + tabs(n));
        }
    }
    proof {
        assert(first_free(m, key@, n));
        let c = choose|c: nat| first_free(m, key@, c);
        lemma_first_free_unique(m, key@, c, n);
    }
    let ks = string_from_chars(k.as_slice());
    let vs = string_from_chars(value.as_slice());
    sections.insert_new(ks, vs);
}

/// `s` without carriage returns.
pub open spec fn without_cr(s: Seq<char>) -> Seq<char>
    decreases s.len(),
{
    if s.len() == 0 {
        s
    } else if s.last() == '\r' {
        without_cr(s.drop_last())
    } else {
        without_cr(s.drop_last()).push(s.last())
    }
}

/// The pieces of `s` that `str::split_inclusive('\n')` gives: each up to and with a line
/// feed, the last one up to the end where `s` does not end with a line feed.
pub open spec fn pieces_inclusive(s: Seq<char>) -> Seq<Seq<char>>
    decreases s.len(),
{
    if s.len() == 0 {
        Seq::empty()
    } else {
        match find_char(s, '\n') {
            Some(i) => if 0 <= i < s.len() {
                seq![s.take(i + 1)] + pieces_inclusive(s.skip(i + 1))
            } else {
                seq![s]
            },
            None => seq![s],
        }
    }
}

/// The sections read so far, the heading and text of the current one, and whether a heading
/// was seen.
pub struct SectionScan {
    pub map: Map<Seq<char>, Seq<char>>,
    pub head: Seq<char>,
    pub body: Seq<char>,
    pub saw_heading: bool,
}

/// A piece without its line feed.
pub open spec fn piece_line(piece: Seq<char>) -> Seq<char> {
    if piece.len() > 0 && piece.last() == '\n' {
        piece.drop_last()
    } else {
        piece
    }
}

/// Whether a line is a heading: `- ` and the heading's text.
pub open spec fn is_heading(line: Seq<char>) -> bool {
    line.len() >= 2 && line[0] == '-' && line[1] == ' '
}

/// The map with the current section added, where there is one.
pub open spec fn close_section(st: SectionScan) -> Map<Seq<char>, Seq<char>> {
    if st.saw_heading || st.body.len() > 0 {
        insert_unique(st.map, st.head, st.body)
    } else {
        st.map
    }
}

/// Reads one piece: a heading closes the current section and opens a new one; any other
/// piece, with its line feed, goes into the current text.
pub open spec fn section_step(st: SectionScan, piece: Seq<char>) -> SectionScan {
    let line = piece_line(piece);
    if is_heading(line) {
        SectionScan { map: close_section(st), head: line.skip(2), body: Seq::empty(), saw_heading: true }
    } else {
        SectionScan { body: st.body + piece, ..st }
    }
}

/// The state after reading the pieces.
pub open spec fn sections_after(pieces: Seq<Seq<char>>) -> SectionScan
    decreases pieces.len(),
{
    if pieces.len() == 0 {
        SectionScan { map: Map::empty(), head: Seq::empty(), body: Seq::empty(), saw_heading: false }
    } else {
        section_step(sections_after(pieces.drop_last()), pieces.last())
    }
}

/// The sections of a program's extended text: each `- ` line starts a section under the rest
/// of the line; the text up to the next heading, carriage returns removed, is its text; text
/// before the first heading is a section under the empty heading; a repeated heading gets
/// tabs appended until it is new.
pub open spec fn extended_text_sections(input: Seq<char>) -> Map<Seq<char>, Seq<char>> {
    let t = without_cr(input);
    if t.len() == 0 {
        Map::empty()
    } else {
        close_section(sections_after(pieces_inclusive(t)))
    }
}

fn remove_cr(cs: &Vec<char>) -> (r: Vec<char>)
    ensures
        r@ == without_cr(cs@),
{
    let mut out: Vec<char> = Vec::new();
    for i in 0..cs.len()
        invariant
            out@ == without_cr(cs@.take(i as int)),
    {
        assert(cs@.take(i + 1).drop_last() =~= cs@.take(i as int));
        if cs[i] != '\r' {
            out.push(cs[i]);
        }
    }
    assert(cs@.take(cs.len() as int) =~= cs@);
    out
}

fn split_pieces(cs: &Vec<char>) -> (r: Vec<Vec<char>>)
    ensures
        r.deep_view() == pieces_inclusive(cs@),
{
    let n = cs.len();
    let mut out: Vec<Vec<char>> = Vec::new();
    let mut start: usize = 0;
    assert(cs@.skip(0) =~= cs@);
    assert(out.deep_view() =~= Seq::<Seq<char>>::empty());
    while start < n
        invariant
            n == cs@.len(),
            start <= n,
            pieces_inclusive(cs@) == out.deep_view() + pieces_inclusive(cs@.skip(start as int)),
        decreases n - start,
    {
        let ghost rest = cs@.skip(start as int);
        proof {
            lemma_find_char(rest, '\n');
        }
        let ghost before = out.deep_view();
        match find_char_from(cs.as_slice(), start, '\n') {
            None => {
                let piece = copy_range(cs.as_slice(), start, n);
                out.push(piece);
                assert(piece@ =~= rest);
                assert(piece.deep_view() =~= piece@);
                assert(out.deep_view() =~= before.push(piece@));
                assert(before + seq![rest] =~= before.push(rest));
                assert(cs@.skip(n as int) =~= Seq::<char>::empty());
                assert(out.deep_view() + pieces_inclusive(cs@.skip(n as int)) =~= out.deep_view());
                start = n;
            },
            Some(i) => {
                assert(find_char(rest, '\n') == Some((i - start) as int));
                let piece = copy_range(cs.as_slice(), start, i + 1);
                out.push(piece);
                assert(piece@ =~= rest.take(i - start + 1));
                assert(piece.deep_view() =~= piece@);
                assert(out.deep_view() =~= before.push(piece@));
                assert(rest.skip(i - start + 1) =~= cs@.skip(i + 1));
                assert(before + (seq![piece@] + pieces_inclusive(cs@.skip(i + 1))) =~= before.push(piece@)
                    + pieces_inclusive(cs@.skip(i + 1)));
                start = i + 1;
            },
        }
    }
    assert(cs@.skip(start as int) =~= Seq::<char>::empty());
    assert(out.deep_view() + Seq::<Seq<char>>::empty() =~= out.deep_view());
    out
}

/// Splits a program's extended text into its sections by heading.
pub fn parse_program_extended_text(input: &str) -> (r: TextSections)
    ensures
        r.map() == extended_text_sections(input@),
{
    let raw = chars_of(input);
    let t = remove_cr(&raw);
    let mut sections = TextSections::new();
    if t.len() == 0 {
        return sections;
    }
    let pieces = split_pieces(&t);
    let ghost ps = pieces.deep_view();
    let mut head: Vec<char> = Vec::new();
    let mut body: Vec<char> = Vec::new();
    let mut saw_heading = false;
    for i in 0..pieces.len()
        invariant
            ps == pieces.deep_view(),
            ps.len() == pieces@.len(),
            sections_after(ps.take(i as int)) == (SectionScan {
                map: sections.map(),
                head: head@,
                body: body@,
                saw_heading,
            }),
    {
        let piece = &pieces[i];
        assert(piece@ =~= ps[i as int]);
        assert(ps.take(i + 1).drop_last() =~= ps.take(i as int));
        let line_len = if piece.len() > 0 && piece[piece.len() - 1] == '\n' {
            piece.len() - 1
        } else {
            piece.len()
        };
        assert(piece_line(piece@) =~= piece@.take(line_len as int));
        if line_len >= 2 && piece[0] == '-' && piece[1] == ' ' {
            if saw_heading || body.len() > 0 {
                let h = head.clone();
                let b = body.clone();
                insert_unique_section(&mut sections, h, b);
            }
            head = copy_range(piece.as_slice(), 2, line_len);
            assert(head@ =~= piece_line(piece@).skip(2));
            body = Vec::new();
            saw_heading = true;
        } else {
            let mut more = piece.clone();
            body.append(&mut more);
        }
    }
    assert(ps.take(pieces.len() as int) =~= ps);
    if saw_heading || body.len() > 0 {
        insert_unique_section(&mut sections, head, body);
    }
    sections
}

} // verus!
