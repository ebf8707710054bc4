//! The UI string tables: a JSON document reduced to what the lookups read
//! (objects, strings, and any other value kept as its JSON text), the deep
//! merge of a locale's strings over the English table, and dotted-key lookup.

use vstd::prelude::*;
use crate::i18n::{before, choose_locale, chosen_locale, lemma_before_len, segment_end};
use crate::text::{chars_of, string_from_chars};

verus! {

broadcast use vstd::std_specs::vec::axiom_vec_decreases_to_view, vstd::seq::axiom_seq_index_decreases;

/// A string table node.
pub enum StringTable {
    /// A JSON string.
    Text(String),
    /// Any JSON value other than a string or an object, as its JSON text.
    Other(String),
    /// A JSON object: its members in document order.
    Object(Vec<(String, StringTable)>),
}

/// The mathematical form of a table: an object is a finite map from member
/// names to member values.
pub enum TableView {
    Text(Seq<char>),
    Other(Seq<char>),
    Object(Map<Seq<char>, TableView>),
}

/// The map of a member list in which a later member of a name overrides an
/// earlier one (in a well-formed table no name occurs twice).
pub open spec fn members_view(members: Seq<(String, StringTable)>) -> Map<Seq<char>, TableView>
    decreases members,
{
    if members.len() == 0 {
        Map::empty()
    } else {
        let last = members.last();
        proof {
            assert(decreases_to!(members => members[members.len() - 1]));
        }
        members_view(members.drop_last()).insert(last.0@, last.1.view_of())
    }
}

/// A member list is well formed when no name occurs twice and every member
/// value is well formed.
pub open spec fn members_wf(members: Seq<(String, StringTable)>) -> bool
    decreases members,
{
    if members.len() == 0 {
        true
    } else {
        let last = members.last();
        proof {
            assert(decreases_to!(members => members[members.len() - 1]));
        }
        &&& members_wf(members.drop_last())
        &&& last.1.wf()
        &&& !members_view(members.drop_last()).contains_key(last.0@)
    }
}

impl StringTable {
    pub open spec fn view_of(self) -> TableView
        decreases self,
    {
        match self {
            StringTable::Text(s) => TableView::Text(s@),
            StringTable::Other(s) => TableView::Other(s@),
            StringTable::Object(members) => TableView::Object(members_view(members@)),
        }
    }

    /// No object of the table names a member twice, as in a parsed JSON
    /// document.
    pub open spec fn wf(self) -> bool
        decreases self,
    {
        match self {
            StringTable::Object(members) => members_wf(members@),
            _ => true,
        }
    }
}

proof fn lemma_members_view_dom(s: Seq<(String, StringTable)>)
    ensures
        members_view(s).dom().finite(),
        forall|n: Seq<char>|
            #[trigger] members_view(s).contains_key(n) <==> exists|i: int|
                0 <= i < s.len() && (#[trigger] s[i]).0@ == n,
    decreases s.len(),
{
    if s.len() > 0 {
        let d = s.drop_last();
        lemma_members_view_dom(d);
        assert forall|n: Seq<char>| #[trigger]
            members_view(s).contains_key(n) <==> exists|i: int|
                0 <= i < s.len() && (#[trigger] s[i]).0@ == n by {
            if members_view(s).contains_key(n) && n != s.last().0@ {
                let i = choose|i: int| 0 <= i < d.len() && (#[trigger] d[i]).0@ == n;
                assert(s[i] == d[i]);
            }
            if exists|i: int| 0 <= i < s.len() && (#[trigger] s[i]).0@ == n {
                let i = choose|i: int| 0 <= i < s.len() && (#[trigger] s[i]).0@ == n;
                if i < s.len() - 1 {
                    assert(d[i] == s[i]);
                }
            }
        }
    }
}

proof fn lemma_members_view_at(s: Seq<(String, StringTable)>, i: int)
    requires
        members_wf(s),
        0 <= i < s.len(),
    ensures
        members_view(s).contains_key(s[i].0@),
        members_view(s)[s[i].0@] == s[i].1.view_of(),
        s[i].1.wf(),
    decreases s.len(),
{
    let d = s.drop_last();
    if i < s.len() - 1 {
        lemma_members_view_at(d, i);
        assert(d[i] == s[i]);
    }
}

proof fn lemma_members_push(s: Seq<(String, StringTable)>, e: (String, StringTable))
    ensures
        members_view(s.push(e)) == members_view(s).insert(e.0@, e.1.view_of()),
        members_wf(s.push(e)) == (members_wf(s) && e.1.wf() && !members_view(s).contains_key(e.0@)),
{
    assert(s.push(e).drop_last() =~= s);
}

proof fn lemma_members_wf_prefix(s: Seq<(String, StringTable)>, n: int)
    requires
        members_wf(s),
        0 <= n <= s.len(),
    ensures
        members_wf(s.take(n)),
    decreases s.len(),
{
    if n == s.len() {
        assert(s.take(n) =~= s);
    } else {
        lemma_members_wf_prefix(s.drop_last(), n);
        assert(s.drop_last().take(n) =~= s.take(n));
    }
}

proof fn lemma_members_take_step(s: Seq<(String, StringTable)>, i: int)
    requires
        0 <= i < s.len(),
    ensures
        members_view(s.take(i + 1)) == members_view(s.take(i)).insert(s[i].0@, s[i].1.view_of()),
        members_wf(s.take(i + 1)) == (members_wf(s.take(i)) && s[i].1.wf() && !members_view(
            s.take(i),
        ).contains_key(s[i].0@)),
{
    assert(s.take(i + 1) =~= s.take(i).push(s[i]));
    lemma_members_push(s.take(i), s[i]);
}

/// A copy of `t`.
pub fn copy_table(t: &StringTable) -> (r: StringTable)
    ensures
        r.view_of() == t.view_of(),
        r.wf() == t.wf(),
    decreases t,
{
    match t {
        StringTable::Text(s) => StringTable::Text(s.clone()),
        StringTable::Other(s) => StringTable::Other(s.clone()),
        StringTable::Object(members) => {
            let mut out: Vec<(String, StringTable)> = Vec::new();
            let mut i: usize = 0;
            assert(members@.take(0) =~= Seq::<(String, StringTable)>::empty());
            assert(decreases_to!(*t => members@)) by {
                assert(decreases_to!(*t => *members));
                assert(decreases_to!(*members => members@));
            }
            while i < members.len()
                invariant
                    decreases_to!(*t => members@),
                    i <= members@.len(),
                    members_view(out@) == members_view(members@.take(i as int)),
                    members_wf(out@) == members_wf(members@.take(i as int)),
                decreases members@.len() - i,
            {
                proof {
                    assert(decreases_to!(members@ => members@[i as int]));
                    assert(decreases_to!(members@[i as int] => members@[i as int].1));
                }
                let name = members[i].0.clone();
                let value = copy_table(&members[i].1);
                proof {
                    lemma_members_push(out@, (name, value));
                    lemma_members_take_step(members@, i as int);
                }
                out.push((name, value));
                i += 1;
            }
            assert(members@.take(members@.len() as int) =~= members@);
            StringTable::Object(out)
        }
    }
}

/// The index of the member named `name`, if there is one.
pub fn find_member(members: &Vec<(String, StringTable)>, name: &String) -> (r: Option<usize>)
    ensures
        r is None <==> !members_view(members@).contains_key(name@),
        r matches Some(j) ==> j < members@.len() && members@[j as int].0@ == name@,
{
    let mut k: usize = 0;
    while k < members.len()
        invariant
            k <= members@.len(),
            forall|m: int| 0 <= m < k ==> (#[trigger] members@[m]).0@ != name@,
        decreases members@.len() - k,
    {
        if members[k].0 == *name {
            proof {
                lemma_members_view_dom(members@);
            }
            return Some(k);
        }
        k += 1;
    }
    proof {
        lemma_members_view_dom(members@);
    }
    None
}

/// The value at `name` when `overlay`'s members are merged over `base`'s.
pub open spec fn merged_member(
    base: Map<Seq<char>, TableView>,
    overlay: Map<Seq<char>, TableView>,
    name: Seq<char>,
) -> TableView
    recommends
        overlay.dom().finite(),
    decreases overlay, 0int,
{
    if overlay.contains_key(name) {
        if base.contains_key(name) && overlay.dom().finite() {
            proof {
                assert(decreases_to!(overlay => overlay[name]));
            }
            merged(base[name], overlay[name])
        } else {
            overlay[name]
        }
    } else {
        base[name]
    }
}

/// `overlay` deep-merged over `base`: where both are objects, the result
/// has the members of both, each member the merge of the two where both
/// have it; anywhere else the overlay replaces the base.
pub open spec fn merged(base: TableView, overlay: TableView) -> TableView
    decreases overlay, 1int,
{
    match overlay {
        TableView::Object(o) => match base {
            TableView::Object(b) => TableView::Object(
                Map::new(
                    |k: Seq<char>| b.contains_key(k) || o.contains_key(k),
                    |k: Seq<char>| merged_member(b, o, k),
                ),
            ),
            _ => overlay,
        },
        _ => overlay,
    }
}

/// The members of `overlay` deep-merged over those of `base`, in the order
/// of `base` followed by the members only `overlay` has.
fn merge_members(
    base: &Vec<(String, StringTable)>,
    overlay: &Vec<(String, StringTable)>,
) -> (r: Vec<(String, StringTable)>)
    requires
        members_wf(base@),
        members_wf(overlay@),
    ensures
        members_wf(r@),
        members_view(r@) == Map::new(
            |k: Seq<char>|
                members_view(base@).contains_key(k) || members_view(overlay@).contains_key(k),
            |k: Seq<char>| merged_member(members_view(base@), members_view(overlay@), k),
        ),
    decreases overlay,
{
    let ghost om = members_view(overlay@);
    let ghost bm = members_view(base@);
    proof {
        lemma_members_view_dom(overlay@);
        lemma_members_view_dom(base@);
    }
    let mut out: Vec<(String, StringTable)> = Vec::new();
    let mut i: usize = 0;
    assert(base@.take(0) =~= Seq::<(String, StringTable)>::empty());
    assert(members_view(out@) =~= Map::new(
        |k: Seq<char>| members_view(base@.take(0)).contains_key(k),
        |k: Seq<char>| merged_member(members_view(base@.take(0)), om, k),
    ));
    assert(decreases_to!(*overlay => overlay@));
    while i < base.len()
        invariant
            decreases_to!(*overlay => overlay@),
            i <= base@.len(),
            members_wf(base@),
            members_wf(overlay@),
            om == members_view(overlay@),
            om.dom().finite(),
            members_wf(out@),
            members_view(out@) == Map::new(
                |k: Seq<char>| members_view(base@.take(i as int)).contains_key(k),
                |k: Seq<char>| merged_member(members_view(base@.take(i as int)), om, k),
            ),
        decreases base@.len() - i,
    {
        let ghost bi = members_view(base@.take(i as int));
        let ghost n = base@[i as int].0@;
        proof {
            lemma_members_take_step(base@, i as int);
            lemma_members_wf_prefix(base@, i as int + 1);
            lemma_members_view_at(base@, i as int);
        }
        let name = base[i].0.clone();
        let value = match find_member(overlay, &base[i].0) {
            Some(j) => {
                proof {
                    lemma_members_view_at(overlay@, j as int);
                    assert(decreases_to!(overlay@ => overlay@[j as int]));
                    assert(decreases_to!(overlay@[j as int] => overlay@[j as int].1));
                }
                merge_tables(&base[i].1, &overlay[j].1)
            },
            None => copy_table(&base[i].1),
        };
        proof {
            let bi2 = members_view(base@.take(i as int + 1));
            assert(bi2 == bi.insert(n, base@[i as int].1.view_of()));
            assert(value.view_of() == merged_member(bi2, om, n));
            lemma_members_push(out@, (name, value));
            assert(members_view(out@.push((name, value))) =~= Map::new(
                |k: Seq<char>| bi2.contains_key(k),
                |k: Seq<char>| merged_member(bi2, om, k),
            ));
        }
        out.push((name, value));
        i += 1;
    }
    assert(base@.take(base@.len() as int) =~= base@);
    let mut i: usize = 0;
    assert(overlay@.take(0) =~= Seq::<(String, StringTable)>::empty());
    assert(members_view(out@) =~= Map::new(
        |k: Seq<char>| bm.contains_key(k) || members_view(overlay@.take(0)).contains_key(k),
        |k: Seq<char>| merged_member(bm, om, k),
    ));
    while i < overlay.len()
        invariant
            i <= overlay@.len(),
            members_wf(base@),
            members_wf(overlay@),
            om == members_view(overlay@),
            bm == members_view(base@),
            members_wf(out@),
            members_view(out@) == Map::new(
                |k: Seq<char>| bm.contains_key(k) || members_view(overlay@.take(i as int)).contains_key(k),
                |k: Seq<char>| merged_member(bm, om, k),
            ),
        decreases overlay@.len() - i,
    {
        let ghost oi = members_view(overlay@.take(i as int));
        let ghost n = overlay@[i as int].0@;
        proof {
            lemma_members_take_step(overlay@, i as int);
            lemma_members_wf_prefix(overlay@, i as int + 1);
            lemma_members_view_at(overlay@, i as int);
        }
        let ghost oi2 = members_view(overlay@.take(i as int + 1));
        if find_member(base, &overlay[i].0).is_none() {
            let name = overlay[i].0.clone();
            let value = copy_table(&overlay[i].1);
            proof {
                lemma_members_push(out@, (name, value));
                assert(members_view(out@.push((name, value))) =~= Map::new(
                    |k: Seq<char>| bm.contains_key(k) || oi2.contains_key(k),
                    |k: Seq<char>| merged_member(bm, om, k),
                ));
            }
            out.push((name, value));
        } else {
            assert(members_view(out@) =~= Map::new(
                |k: Seq<char>| bm.contains_key(k) || oi2.contains_key(k),
                |k: Seq<char>| merged_member(bm, om, k),
            ));
        }
        i += 1;
    }
    assert(overlay@.take(overlay@.len() as int) =~= overlay@);
    out
}

/// `overlay` deep-merged over `base`.
pub fn merge_tables(base: &StringTable, overlay: &StringTable) -> (r: StringTable)
    requires
        base.wf(),
        overlay.wf(),
    ensures
        r.wf(),
        r.view_of() == merged(base.view_of(), overlay.view_of()),
    decreases overlay,
{
    match overlay {
        StringTable::Object(o) => match base {
            StringTable::Object(b) => {
                proof {
                    lemma_members_view_dom(o@);
                }
                let members = merge_members(b, o);
                let r = StringTable::Object(members);
                assert(base.view_of() == TableView::Object(members_view(b@)));
                assert(overlay.view_of() == TableView::Object(members_view(o@)));
                let ghost m = merged(base.view_of(), overlay.view_of());
                assert(m is Object);
                assert(members_view(members@) =~= m->Object_0);
                assert(r.view_of() == m);
                r
            },
            _ => copy_table(overlay),
        },
        _ => copy_table(overlay),
    }
}

/// Merges `overlay` deeply into `base`: objects member by member, anything
/// else replaced by the overlay's value.
pub fn merge_json(base: &mut StringTable, overlay: &StringTable)
    requires
        old(base).wf(),
        overlay.wf(),
    ensures
        final(base).wf(),
        final(base).view_of() == merged(old(base).view_of(), overlay.view_of()),
{
    let r = merge_tables(base, overlay);
    *base = r;
}

/// The segments of a dotted key, as `str::split('.')` yields them.
pub open spec fn key_segments(key: Seq<char>) -> Seq<Seq<char>>
    decreases key.len(),
{
    let first = before(key, '.');
    if first.len() < key.len() {
        seq![first] + key_segments(key.subrange(first.len() as int + 1, key.len() as int))
    } else {
        seq![first]
    }
}

/// The value reached from `t` by following the member names of `path`.
pub open spec fn lookup_path(t: TableView, path: Seq<Seq<char>>) -> Option<TableView>
    decreases path.len(),
{
    if path.len() == 0 {
        Some(t)
    } else {
        match t {
            TableView::Object(m) => if m.contains_key(path[0]) {
                lookup_path(m[path[0]], path.drop_first())
            } else {
                None
            },
            _ => None,
        }
    }
}

/// The string a dotted key names in a table, or the key itself when it
/// names no string.
pub open spec fn text_of(t: TableView, key: Seq<char>) -> Seq<char> {
    match lookup_path(t, key_segments(key)) {
        Some(TableView::Text(s)) => s,
        _ => key,
    }
}

fn string_of_range(chars: &Vec<char>, start: usize, stop: usize) -> (s: String)
    requires
        start <= stop <= chars@.len(),
    ensures
        s@ == chars@.subrange(start as int, stop as int),
{
    let mut part: Vec<char> = Vec::new();
    let mut k = start;
    while k < stop
        invariant
            start <= k <= stop <= chars@.len(),
            part@ == chars@.subrange(start as int, k as int),
        decreases stop - k,
    {
        part.push(chars[k]);
        k += 1;
        assert(part@ =~= chars@.subrange(start as int, k as int));
    }
    string_from_chars(&part)
}

/// The string at a dotted key such as `launcher.menu.quit`, or the key
/// itself when the table holds no string there.
pub fn text(strings: &StringTable, key: &str) -> (r: String)
    requires
        strings.wf(),
    ensures
        r@ == text_of(strings.view_of(), key@),
{
    let chars = chars_of(key);
    let len = chars.len();
    let mut node: &StringTable = strings;
    let mut start: usize = 0;
    assert(chars@.subrange(0, len as int) =~= key@);
    loop
        invariant_except_break
            lookup_path(strings.view_of(), key_segments(key@)) == lookup_path(
                node.view_of(),
                key_segments(chars@.subrange(start as int, len as int)),
            ),
        invariant
            start <= len == chars@.len(),
            chars@ == key@,
            node.wf(),
        ensures
            lookup_path(strings.view_of(), key_segments(key@)) == Some(node.view_of()),
        decreases len - start,
    {
        let stop = segment_end(&chars, start, len, '.');
        let ghost rest = chars@.subrange(start as int, len as int);
        let ghost segs = key_segments(rest);
        proof {
            lemma_before_len(rest, '.');
            assert(segs[0] == before(rest, '.'));
        }
        let name = string_of_range(&chars, start, stop);
        let next: &StringTable = match node {
            StringTable::Object(members) => match find_member(members, &name) {
                Some(j) => {
                    proof {
                        lemma_members_view_at(members@, j as int);
                    }
                    &members[j].1
                },
                None => {
                    return String::from_str(key);
                },
            },
            _ => {
                return String::from_str(key);
            },
        };
        if stop == len {
            proof {
                assert(segs =~= seq![name@]);
                assert(segs.drop_first() =~= Seq::<Seq<char>>::empty());
                assert(lookup_path(next.view_of(), segs.drop_first()) == Some(next.view_of()));
            }
            node = next;
            break;
        }
        proof {
            let tail = chars@.subrange(stop + 1, len as int);
            assert(rest.subrange(before(rest, '.').len() as int + 1, rest.len() as int) =~= tail);
            assert(segs.drop_first() =~= key_segments(tail));
        }
        node = next;
        start = stop + 1;
    }
    match node {
        StringTable::Text(s) => s.clone(),
        _ => String::from_str(key),
    }
}

/// A localized value that is not an object survives the merge: whatever
/// the overlay holds at a path (a string, a number, ...) is what the merged
/// table holds there.
pub proof fn lemma_merge_keeps_overlay_value(base: TableView, overlay: TableView, path: Seq<Seq<char>>)
    requires
        lookup_path(overlay, path) matches Some(v) && !(v is Object),
    ensures
        lookup_path(merged(base, overlay), path) == lookup_path(overlay, path),
    decreases path.len(),
{
    if path.len() > 0 {
        if let TableView::Object(o) = overlay {
            if let TableView::Object(b) = base {
                let name = path[0];
                let m = merged(base, overlay)->Object_0;
                assert(m.contains_key(name));
                if b.contains_key(name) && o.dom().finite() {
                    lemma_merge_keeps_overlay_value(b[name], o[name], path.drop_first());
                }
            }
        }
    }
}

/// Along `path`, the overlay stops having the member the path asks for
/// while the base still has objects there: the part of the base the
/// overlay says nothing about.
pub open spec fn overlay_lacks(base: TableView, overlay: TableView, path: Seq<Seq<char>>) -> bool
    decreases path.len(),
{
    path.len() > 0 && match (base, overlay) {
        (TableView::Object(b), TableView::Object(o)) => !o.contains_key(path[0]) || (
        b.contains_key(path[0]) && o.dom().finite() && overlay_lacks(
            b[path[0]],
            o[path[0]],
            path.drop_first(),
        )),
        _ => false,
    }
}

/// What the overlay lacks falls back to the base: where the overlay has no
/// member along `path`, the merged table holds what the base holds.
pub proof fn lemma_merge_falls_back_to_base(base: TableView, overlay: TableView, path: Seq<Seq<char>>)
    requires
        overlay_lacks(base, overlay, path),
    ensures
        lookup_path(merged(base, overlay), path) == lookup_path(base, path),
    decreases path.len(),
{
    let b = base->Object_0;
    let o = overlay->Object_0;
    let name = path[0];
    let m = merged(base, overlay)->Object_0;
    if o.contains_key(name) {
        lemma_merge_falls_back_to_base(b[name], o[name], path.drop_first());
    } else if b.contains_key(name) {
        assert(m.contains_key(name) && m[name] == b[name]);
    } else {
        assert(!m.contains_key(name));
    }
}

proof fn lemma_members_view_value(s: Seq<(String, StringTable)>, n: Seq<char>)
    requires
        members_view(s).contains_key(n),
    ensures
        exists|i: int|
            0 <= i < s.len() && s[i].0@ == n && (#[trigger] s[i]).1.view_of() == members_view(
                s,
            )[n],
    decreases s.len(),
{
    let d = s.drop_last();
    if s.last().0@ != n {
        lemma_members_view_value(d, n);
        let i = choose|i: int|
            0 <= i < d.len() && d[i].0@ == n && (#[trigger] d[i]).1.view_of() == members_view(
                d,
            )[n];
        assert(s[i] == d[i]);
    } else {
        assert(s[s.len() - 1] == s.last());
    }
}

/// Merging a table over itself leaves it as it was.
pub proof fn lemma_merge_with_itself(t: StringTable)
    ensures
        merged(t.view_of(), t.view_of()) == t.view_of(),
    decreases t,
{
    if let StringTable::Object(members) = t {
        let mv = members_view(members@);
        lemma_members_view_dom(members@);
        assert(decreases_to!(t => members@)) by {
            assert(decreases_to!(t => members));
            assert(decreases_to!(members => members@));
        }
        assert forall|k: Seq<char>| mv.contains_key(k) implies merged(mv[k], mv[k]) == mv[k] by {
            lemma_members_view_value(members@, k);
            let i = choose|i: int|
                0 <= i < members@.len() && members@[i].0@ == k && (#[trigger] members@[i]).1.view_of()
                    == mv[k];
            assert(decreases_to!(members@ => members@[i]));
            assert(decreases_to!(members@[i] => members@[i].1));
            lemma_merge_with_itself(members@[i].1);
        }
        let m = merged(t.view_of(), t.view_of());
        assert(m->Object_0 =~= mv);
    }
}

/// The locale a request is served in: the first supported locale the
/// request names, else the system's.
pub open spec fn served_locale(requested: Option<Seq<char>>, system_locale: Seq<char>) -> Seq<char> {
    match requested {
        Some(r) => match chosen_locale(r) {
            Some(l) => l,
            None => system_locale,
        },
        None => system_locale,
    }
}

/// The first table listed for locale `code`, if there is one.
pub open spec fn table_for_locale(locale_tables: Seq<(&'static str, StringTable)>, code: Seq<char>) -> Option<
    StringTable,
>
    decreases locale_tables.len(),
{
    if locale_tables.len() == 0 {
        None
    } else if locale_tables[0].0@ == code {
        Some(locale_tables[0].1)
    } else {
        table_for_locale(locale_tables.drop_first(), code)
    }
}

/// The strings a locale is served: English for English, else the
/// locale's table merged over English (English alone when there is
/// no table for it).
pub open spec fn served_strings(
    locale: Seq<char>,
    english: TableView,
    locale_tables: Seq<(&'static str, StringTable)>,
) -> TableView {
    if locale == "en"@ {
        english
    } else {
        match table_for_locale(locale_tables, locale) {
            Some(t) => merged(english, t.view_of()),
            None => english,
        }
    }
}

pub open spec fn optional_view(s: Option<&str>) -> Option<Seq<char>> {
    match s {
        Some(s) => Some(s@),
        None => None,
    }
}

/// The locale a request is served in and its strings: the first supported
/// locale in `requested_locale` (else `system_locale`), and English with
/// that locale's table merged over it.
pub fn strings_for(
    requested_locale: Option<&str>,
    system_locale: &'static str,
    english: &StringTable,
    locale_tables: &Vec<(&'static str, StringTable)>,
) -> (r: (&'static str, StringTable))
    requires
        english.wf(),
        forall|i: int| 0 <= i < locale_tables@.len() ==> (#[trigger] locale_tables@[i]).1.wf(),
    ensures
        r.0@ == served_locale(optional_view(requested_locale), system_locale@),
        r.1.wf(),
        r.1.view_of() == served_strings(r.0@, english.view_of(), locale_tables@),
{
    let chosen = match requested_locale {
        Some(requested) => choose_locale(requested),
        None => None,
    };
    let locale = match chosen {
        Some(l) => l,
        None => system_locale,
    };
    if String::from_str(locale) == String::from_str("en") {
        return (locale, copy_table(english));
    }
    let mut k: usize = 0;
    assert(locale_tables@.skip(0) =~= locale_tables@);
    while k < locale_tables.len()
        invariant
            k <= locale_tables@.len(),
            english.wf(),
            forall|i: int| 0 <= i < locale_tables@.len() ==> (#[trigger] locale_tables@[i]).1.wf(),
            locale@ == served_locale(optional_view(requested_locale), system_locale@),
            locale@ != "en"@,
            table_for_locale(locale_tables@, locale@) == table_for_locale(
                locale_tables@.skip(k as int),
                locale@,
            ),
        decreases locale_tables@.len() - k,
    {
        proof {
            assert(locale_tables@.skip(k as int).drop_first() =~= locale_tables@.skip(k as int + 1));
        }
        if String::from_str(locale_tables[k].0) == String::from_str(locale) {
            let strings = merge_tables(english, &locale_tables[k].1);
            return (locale, strings);
        }
        k += 1;
    }
    let strings = merge_tables(english, english);
    proof {
        lemma_merge_with_itself(*english);
    }
    (locale, strings)
}

} // verus!
