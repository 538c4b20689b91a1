//! The detail panel that a click on a label fills in.
use vstd::prelude::*;
use crate::record::{CityName, RecordStore};
use crate::text::{close_bracket, display_name, display_name_of, open_bracket, title_of, title_piece, title_text};

verus! {

/// The map embed's address for a prefecture and a city: the city's name is taken
/// without its disambiguation segment.
pub open spec fn map_url_of(prefecture: Seq<char>, city: Seq<char>) -> Seq<char> {
    "https://www.google.com/maps?output=embed&q="@ + prefecture + display_name_of(city)
}

/// The encyclopedia's address for a city, brackets converted.
pub open spec fn wiki_url_of(city: Seq<char>) -> Seq<char> {
    "https://ja.wikipedia.org/wiki/"@ + title_of(city)
}

/// What the detail panel shows for one record.
pub struct DetailPanel {
    pub city: String,
    pub prefecture: String,
    pub city_kana: String,
    pub map_src: String,
    pub wiki_href: String,
}

/// Whether a panel shows a record: the city's name without its disambiguation
/// segment, the prefecture, the city's kana, and the two addresses.
pub open spec fn panel_of(p: DetailPanel, r: CityName) -> bool {
    &&& p.city@ == display_name_of(r.city@)
    &&& p.prefecture@ == r.prefecture@
    &&& p.city_kana@ == r.city_kana@
    &&& p.map_src@ == map_url_of(r.prefecture@, r.city@)
    &&& p.wiki_href@ == wiki_url_of(r.city@)
}

/// The map embed's address for a record.
pub fn map_url(prefecture: &str, city: &str) -> (r: String)
    ensures
        r@ == map_url_of(prefecture@, city@),
{
    let mut r = String::from_str("https://www.google.com/maps?output=embed&q=");
    r.append(prefecture);
    let name = display_name(city);
    r.append(name.as_str());
    r
}

/// The encyclopedia's address for a city.
pub fn wiki_url(city: &str) -> (r: String)
    ensures
        r@ == wiki_url_of(city@),
{
    let mut r = String::from_str("https://ja.wikipedia.org/wiki/");
    let title = title_text(city);
    r.append(title.as_str());
    r
}

/// The panel for one record; the record itself is left as it is.
pub fn detail_panel(record: &CityName) -> (p: DetailPanel)
    ensures
        panel_of(p, *record),
{
    DetailPanel {
        city: display_name(record.city.as_str()),
        prefecture: record.prefecture.clone(),
        city_kana: record.city_kana.clone(),
        map_src: map_url(record.prefecture.as_str(), record.city.as_str()),
        wiki_href: wiki_url(record.city.as_str()),
    }
}

/// The click handler of one label, bound to the one record the label shows.
#[derive(Clone, Copy, Debug, PartialEq, Eq, Structural)]
pub struct ClickHandler {
    pub record_index: usize,
}

impl ClickHandler {
    /// A handler bound to record `record_index`.
    pub fn new(record_index: usize) -> (r: ClickHandler)
        ensures
            r.record_index == record_index,
    {
        ClickHandler { record_index }
    }

    /// What the panel shows when the label is clicked.
    pub fn panel(&self, store: &RecordStore) -> (p: DetailPanel)
        requires
            self.record_index < store.len(),
        ensures
            panel_of(p, store.records()[self.record_index as int]),
    {
        detail_panel(store.get(self.record_index))
    }
}

proof fn lemma_title_concat(s: Seq<char>, t: Seq<char>)
    ensures
        title_of(s + t) == title_of(s) + title_of(t),
    decreases t.len(),
{
    if t.len() == 0 {
        assert(s + t =~= s);
        assert(title_of(s) + title_of(t) =~= title_of(s));
    } else {
        lemma_title_concat(s, t.drop_last());
        assert((s + t).drop_last() =~= s + t.drop_last());
        assert(title_of(s + t) == title_of(s + t.drop_last()) + title_piece(t.last()));
        assert(title_of(s) + title_of(t) =~= title_of(s) + title_of(t.drop_last()) + title_piece(
            t.last(),
        ));
    }
}

proof fn lemma_title_plain(s: Seq<char>)
    requires
        forall|i: int| 0 <= i < s.len() ==> s[i] != open_bracket() && s[i] != close_bracket(),
    ensures
        title_of(s) == s,
    decreases s.len(),
{
    if s.len() > 0 {
        lemma_title_plain(s.drop_last());
        assert(s.drop_last().push(s.last()) =~= s);
    }
}

proof fn lemma_display_name_plain(a: Seq<char>, b: Seq<char>)
    requires
        !a.contains(open_bracket()),
    ensures
        display_name_of(a + seq![open_bracket()] + b) == a,
    decreases b.len(),
{
    let s = a + seq![open_bracket()] + b;
    assert(s[a.len() as int] == open_bracket());
    assert(s.contains(open_bracket()));
    assert(display_name_of(s) == display_name_of(s.drop_last()));
    if b.len() == 0 {
        assert(s.drop_last() =~= a);
        assert(display_name_of(a) == a);
    } else {
        assert(s.drop_last() =~= a + seq![open_bracket()] + b.drop_last());
        lemma_display_name_plain(a, b.drop_last());
    }
}

/// For a city written `name（region）`, with no bracket in `name` or `region`,
/// the encyclopedia title is `name_(region)` and the panel and map show `name`.
pub proof fn lemma_bracketed_city(name: Seq<char>, region: Seq<char>)
    requires
        forall|i: int| 0 <= i < name.len() ==> name[i] != open_bracket() && name[i] != close_bracket(),
        forall|i: int| 0 <= i < region.len() ==> region[i] != open_bracket() && region[i] != close_bracket(),
    ensures
        title_of(name + seq![open_bracket()] + region + seq![close_bracket()]) == name + seq!['_', '(']
            + region + seq![')'],
        display_name_of(name + seq![open_bracket()] + region + seq![close_bracket()]) == name,
{
    let o = seq![open_bracket()];
    let c = seq![close_bracket()];
    lemma_title_concat(name + o + region, c);
    lemma_title_concat(name + o, region);
    lemma_title_concat(name, o);
    lemma_title_plain(name);
    lemma_title_plain(region);
    reveal_with_fuel(title_of, 2);
    assert(o.drop_last() =~= Seq::<char>::empty());
    assert(c.drop_last() =~= Seq::<char>::empty());
    assert(title_of(o) =~= seq!['_', '(']);
    assert(title_of(c) =~= seq![')']);
    assert(!name.contains(open_bracket())) by {
        if name.contains(open_bracket()) {
            let j = choose|j: int| 0 <= j < name.len() && name[j] == open_bracket();
            assert(name[j] != open_bracket());
        }
    }
    assert(name + o + region + c =~= name + o + (region + c));
    lemma_display_name_plain(name, region + c);
}

} // verus!
