//! The game catalogue: reading game list pages, gathering them without
//! repeats, and the search answer.
use vstd::prelude::*;
use vstd::hash_set::HashSetWithView;
use crate::json::{
    as_array, as_str, as_u64, entries_view, get, items_of, key, member, object, str_of, u64_of,
    JsonValue, JsonView,
};

verus! {

broadcast use {
    vstd::seq::group_seq_axioms,
    vstd::std_specs::vec::group_vec_axioms,
    vstd::std_specs::hash::group_hash_axioms,
    vstd::set::group_set_axioms,
};

/// A game of the catalogue, as the search index keeps it.
#[derive(Debug)]
pub struct GAME {
    pub id: u64,
    pub name: String,
    pub main_img: String,
    pub game_recommend_img: String,
    pub game_icon: String,
}

pub struct GameView {
    pub id: u64,
    pub name: Seq<char>,
    pub main_img: Seq<char>,
    pub game_recommend_img: Seq<char>,
    pub game_icon: Seq<char>,
}

impl View for GAME {
    type V = GameView;

    open spec fn view(&self) -> GameView {
        GameView {
            id: self.id,
            name: self.name@,
            main_img: self.main_img@,
            game_recommend_img: self.game_recommend_img@,
            game_icon: self.game_icon@,
        }
    }
}

/// The game a list item describes, when it has all of `id`,
/// `game_name`, `game_main_img`, `game_recommend_img` and `game_icon`.
pub open spec fn game_of(item: JsonView) -> Option<GameView> {
    match (
        as_u64(get(item, "id"@)),
        as_str(get(item, "game_name"@)),
        as_str(get(item, "game_main_img"@)),
        as_str(get(item, "game_recommend_img"@)),
        as_str(get(item, "game_icon"@)),
    ) {
        (Some(id), Some(name), Some(main_img), Some(rec), Some(icon)) => Some(
            GameView { id, name, main_img, game_recommend_img: rec, game_icon: icon },
        ),
        _ => None,
    }
}

/// The games of a list, in order, the incomplete items left out.
pub open spec fn games_of(items: Seq<JsonView>) -> Seq<GameView>
    decreases items.len(),
{
    if items.len() == 0 {
        Seq::empty()
    } else {
        match game_of(items.last()) {
            Some(g) => games_of(items.drop_last()).push(g),
            None => games_of(items.drop_last()),
        }
    }
}

pub fn game_from(item: &JsonValue) -> (r: Option<GAME>)
    ensures
        match r {
            Some(g) => game_of(item@) == Some(g@),
            None => game_of(item@) is None,
        },
{
    let v = Some(item);
    let id = u64_of(key(v, "id"));
    let name = str_of(key(v, "game_name"));
    let main_img = str_of(key(v, "game_main_img"));
    let rec = str_of(key(v, "game_recommend_img"));
    let icon = str_of(key(v, "game_icon"));
    match (id, name, main_img, rec, icon) {
        (Some(id), Some(name), Some(main_img), Some(rec), Some(icon)) => Some(
            GAME {
                id,
                name: name.clone(),
                main_img: main_img.clone(),
                game_recommend_img: rec.clone(),
                game_icon: icon.clone(),
            },
        ),
        _ => None,
    }
}

/// The games described by a catalogue listing.
pub fn parse_games(items: &Vec<JsonValue>) -> (r: Vec<GAME>)
    ensures
        r@.map_values(|g: GAME| g@) == games_of(items@.map_values(|e: JsonValue| e@)),
{
    let ghost views = items@.map_values(|e: JsonValue| e@);
    let mut out: Vec<GAME> = Vec::new();
    let mut i: usize = 0;
    while i < items.len()
        invariant
            i <= items@.len(),
            views == items@.map_values(|e: JsonValue| e@),
            out@.map_values(|g: GAME| g@) == games_of(views.take(i as int)),
        decreases items@.len() - i,
    {
        let ghost before = out@;
        proof {
            assert(views.take(i as int + 1).drop_last() =~= views.take(i as int));
            assert(views.take(i as int + 1).last() == items@[i as int]@);
        }
        match game_from(&items[i]) {
            Some(g) => {
                out.push(g);
                assert(out@.map_values(|g: GAME| g@) =~= before.map_values(|g: GAME| g@).push(
                    out@.last()@,
                ));
            },
            None => {},
        }
        i = i + 1;
    }
    assert(views.take(items@.len() as int) =~= views);
    out
}

/// One game as the search answer writes it (`serde_json::to_value` of the
/// derived serialisation, members in key order).
pub open spec fn game_json(g: GameView) -> JsonView {
    JsonView::Object(
        seq![
            ("game_icon"@, JsonView::Str(g.game_icon)),
            ("game_recommend_img"@, JsonView::Str(g.game_recommend_img)),
            ("id"@, JsonView::PosInt(g.id)),
            ("main_img"@, JsonView::Str(g.main_img)),
            ("name"@, JsonView::Str(g.name)),
        ],
    )
}

pub fn game_to_json(g: &GAME) -> (r: JsonValue)
    ensures
        r@ == game_json(g@),
{
    let mut e: Vec<(String, JsonValue)> = Vec::new();
    e.push(member("game_icon", JsonValue::Str(g.game_icon.clone())));
    e.push(member("game_recommend_img", JsonValue::Str(g.game_recommend_img.clone())));
    e.push(member("id", JsonValue::PosInt(g.id)));
    e.push(member("main_img", JsonValue::Str(g.main_img.clone())));
    e.push(member("name", JsonValue::Str(g.name.clone())));
    let r = object(e);
    assert(entries_view(e@) =~= match game_json(g@) {
        JsonView::Object(s) => s,
        _ => Seq::empty(),
    });
    r
}

/// The `answer` of a search: the hits as an array of games.
pub fn search_answer(games: &Vec<GAME>) -> (r: JsonValue)
    ensures
        r@ == JsonView::Array(games@.map_values(|g: GAME| game_json(g@))),
{
    let mut items: Vec<JsonValue> = Vec::new();
    let mut i: usize = 0;
    while i < games.len()
        invariant
            i <= games@.len(),
            items@.len() == i,
            forall|j: int| 0 <= j < i ==> (#[trigger] items@[j])@ == game_json(games@[j]@),
        decreases games@.len() - i,
    {
        items.push(game_to_json(&games[i]));
        i = i + 1;
    }
    let r = JsonValue::Array(items);
    proof {
        let a = match r@ {
            JsonView::Array(a) => a,
            _ => Seq::empty(),
        };
        assert(a =~= games@.map_values(|g: GAME| game_json(g@)));
    }
    r
}

/// The most catalogue pages read.
pub const MAX_PAGES: u32 = 500;

/// What to do after a catalogue page.
#[derive(Debug, PartialEq, Eq, Structural)]
pub enum PageNext {
    /// Read this page next.
    Fetch(u32),
    /// The catalogue is complete (or the page limit was reached).
    Done,
}

/// The catalogue gathered so far: each item with an integer `id`, the first
/// time that id was seen.
pub struct PageCollector {
    pub all: Vec<JsonValue>,
    pub seen: HashSetWithView<u64>,
    pub page: u32,
}

/// The id of a list item.
pub open spec fn item_id(item: JsonView) -> Option<u64> {
    as_u64(get(item, "id"@))
}

/// Items and seen ids after taking in `items` on top of `all` and `seen`.
pub open spec fn absorb(all: Seq<JsonView>, seen: Set<u64>, items: Seq<JsonView>) -> (
    Seq<JsonView>,
    Set<u64>,
)
    decreases items.len(),
{
    if items.len() == 0 {
        (all, seen)
    } else {
        let (a, s) = absorb(all, seen, items.drop_last());
        match item_id(items.last()) {
            Some(id) => if s.contains(id) {
                (a, s)
            } else {
                (a.push(items.last()), s.insert(id))
            },
            None => (a, s),
        }
    }
}

/// After a page: the list is `data.data`; nothing more when it is missing
/// or empty, when as many items were gathered as `data.total` says (0 when
/// absent), or when the next page would pass the limit.
pub open spec fn page_step(all: Seq<JsonView>, seen: Set<u64>, page: u32, value: JsonView) -> (
    Seq<JsonView>,
    Set<u64>,
    u32,
    PageNext,
) {
    let data = get(value, "data"@);
    match as_array(get(data, "data"@)) {
        None => (all, seen, page, PageNext::Done),
        Some(list) => if list.len() == 0 {
            (all, seen, page, PageNext::Done)
        } else {
            let total: u64 = match as_u64(get(data, "total"@)) {
                Some(t) => t,
                None => 0,
            };
            let (a, s) = absorb(all, seen, list);
            if a.len() >= total {
                (a, s, page, PageNext::Done)
            } else if page + 1 > MAX_PAGES {
                (a, s, (page + 1) as u32, PageNext::Done)
            } else {
                (a, s, (page + 1) as u32, PageNext::Fetch((page + 1) as u32))
            }
        },
    }
}

impl PageCollector {
    pub open spec fn seen_ids(&self) -> Set<u64> {
        self.seen@
    }

    pub open spec fn items(&self) -> Seq<JsonView> {
        self.all@.map_values(|e: JsonValue| e@)
    }

    /// Nothing gathered; the first page is next.
    pub fn new() -> (r: PageCollector)
        ensures
            r.items() == Seq::<JsonView>::empty(),
            r.seen_ids() == Set::<u64>::empty(),
            r.page == 1,
    {
        let r = PageCollector { all: Vec::new(), seen: HashSetWithView::new(), page: 1 };
        assert(r.items() =~= Seq::<JsonView>::empty());
        r
    }

    /// Takes in one catalogue page.
    pub fn on_page(&mut self, value: &JsonValue) -> (r: PageNext)
        requires
            old(self).page <= MAX_PAGES,
        ensures
            (final(self).items(), final(self).seen_ids(), final(self).page, r) == page_step(
                old(self).items(),
                old(self).seen_ids(),
                old(self).page,
                value@,
            ),
            final(self).page <= MAX_PAGES + 1,
            r matches PageNext::Fetch(p) ==> p == final(self).page && p <= MAX_PAGES,
    {
        let data = key(Some(value), "data");
        let list = match items_of(key(data, "data")) {
            Some(list) => list,
            None => return PageNext::Done,
        };
        if list.len() == 0 {
            return PageNext::Done;
        }
        let total: u64 = match u64_of(key(data, "total")) {
            Some(t) => t,
            None => 0,
        };
        let ghost lv = list@.map_values(|e: JsonValue| e@);
        let ghost all0 = self.items();
        let ghost seen0 = self.seen@;
        let mut i: usize = 0;
        assert(lv.take(0) =~= Seq::<JsonView>::empty());
        while i < list.len()
            invariant
                i <= list@.len(),
                lv == list@.map_values(|e: JsonValue| e@),
                (self.items(), self.seen@) == absorb(all0, seen0, lv.take(i as int)),
                self.page == old(self).page,
                old(self).page <= MAX_PAGES,
                total == match as_u64(get(get(value@, "data"@), "total"@)) {
                    Some(t) => t,
                    None => 0,
                },
                as_array(get(get(value@, "data"@), "data"@)) == Some(lv),
            decreases list@.len() - i,
        {
            let item = &list[i];
            proof {
                assert(lv.take(i as int + 1).drop_last() =~= lv.take(i as int));
                assert(lv.take(i as int + 1).last() == item@);
            }
            match u64_of(key(Some(item), "id")) {
                Some(id) => {
                    if self.seen.insert(id) {
                        let ghost before = self.all@;
                        self.all.push(item.duplicate());
                        assert(self.all@.map_values(|e: JsonValue| e@) =~= before.map_values(
                            |e: JsonValue| e@,
                        ).push(item@));
                    }
                },
                None => {},
            }
            i = i + 1;
        }
        assert(lv.take(list@.len() as int) =~= lv);
        if (self.all.len() as u64) >= total {
            return PageNext::Done;
        }
        self.page = self.page + 1;
        if self.page > MAX_PAGES {
            return PageNext::Done;
        }
        PageNext::Fetch(self.page)
    }
}

} // verus!
