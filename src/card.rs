use crate::dungeon::{challenge_text, ChallengeBox, Dungeon};
use crate::encounter::{encounter_text, Encounter};
use crate::hero::{attribute_text, effect_text, Attribute, Hero, HeroicFeat, Skill};
use crate::text::{int_text, int_to_text, join_text, join_texts, nat_text, nat_to_text, texts_of};
use vstd::prelude::*;
use vstd::string::*;

verus! {

/// Width of a card's text column, in characters.
pub const CARD_WIDTH: usize = 50;

/// `n` spaces.
pub open spec fn spaces(n: nat) -> Seq<char> {
    Seq::new(n, |i: int| ' ')
}

/// The line at the top and at the bottom of a card.
pub open spec fn card_edge() -> Seq<char> {
    seq!['|'] + Seq::new((CARD_WIDTH + 2) as nat, |i: int| '-') + seq!['|', '\n']
}

/// One line of a card: `c` between the card's borders, padded with spaces to
/// the column width (a longer `c` is kept whole).
pub open spec fn edged(c: Seq<char>) -> Seq<char> {
    let pad: nat = if c.len() < CARD_WIDTH {
        (CARD_WIDTH - c.len()) as nat
    } else {
        0
    };
    "| "@ + c + spaces(pad) + " |\n"@
}

/// The line at the top and at the bottom of a card.
pub fn get_card_top_or_bottom() -> (r: String)
    ensures
        r@ == card_edge(),
{
    let mut r = String::from_str("|");
    proof {
        reveal_strlit("|");
        reveal_strlit("-");
        reveal_strlit("\n");
    }
    let mut i: usize = 0;
    while i < CARD_WIDTH + 2
        invariant
            i <= CARD_WIDTH + 2,
            r@ == seq!['|'] + Seq::new(i as nat, |k: int| '-'),
        decreases CARD_WIDTH + 2 - i,
    {
        proof {
            reveal_strlit("-");
        }
        assert("-"@ =~= seq!['-']);
        r.append("-");
        assert(seq!['|'] + Seq::new((i + 1) as nat, |k: int| '-') =~= seq!['|'] + Seq::new(i as nat, |k: int| '-') + seq!['-']);
        i = i + 1;
    }
    r.append("|");
    r.append("\n");
    assert(r@ =~= card_edge());
    r
}

/// `contents` as one line of a card, as `edged` gives it.
pub fn surround_with_edge(contents: &str) -> (r: String)
    ensures
        r@ == edged(contents@),
{
    let mut r = String::from_str("| ");
    r.append(contents);
    let len = contents.unicode_len();
    let pad: usize = if len < CARD_WIDTH {
        CARD_WIDTH - len
    } else {
        0
    };
    proof {
        reveal_strlit(" ");
    }
    let ghost start = r@;
    let mut i: usize = 0;
    while i < pad
        invariant
            i <= pad,
            r@ == start + spaces(i as nat),
        decreases pad - i,
    {
        proof {
            reveal_strlit(" ");
        }
        assert(" "@ =~= seq![' ']);
        r.append(" ");
        assert(start + spaces((i + 1) as nat) =~= start + spaces(i as nat) + seq![' ']);
        i = i + 1;
    }
    r.append(" |\n");
    r
}

/// Ends the description line being gathered: writes it to `output` as a card
/// line and starts an empty one.
pub fn split_line_long_description(output: &mut String, description: &mut String, col_counter: &mut usize)
    ensures
        final(output)@ == old(output)@ + edged(old(description)@),
        final(description)@ == Seq::<char>::empty(),
        *final(col_counter) == 0,
{
    let line = surround_with_edge(description.as_str());
    output.append(line.as_str());
    *description = String::new();
    *col_counter = 0;
}

/// What `str::to_uppercase` makes of `s`.
pub uninterp spec fn upper_of(s: Seq<char>) -> Seq<char>;

/// Relies on `str::to_uppercase`: the result depends on the characters alone.
#[verifier::external_body]
fn uppercase(s: &str) -> (r: String)
    ensures
        r@ == upper_of(s@),
{
    s.to_uppercase()
}

/// `a` followed by `b`, where there are both.
pub open spec fn then_text(a: Option<Seq<char>>, b: Option<Seq<char>>) -> Option<Seq<char>> {
    match (a, b) {
        (Some(a), Some(b)) => Some(a + b),
        _ => None,
    }
}

/// One card line per challenge box; nothing where a box cannot be written.
pub open spec fn boxes_lines(s: Seq<ChallengeBox>) -> Option<Seq<char>>
    decreases s.len(),
{
    if s.len() == 0 {
        Some(Seq::empty())
    } else {
        match (boxes_lines(s.drop_last()), challenge_text(s.last())) {
            (Some(a), Some(t)) => Some(a + edged(t)),
            _ => None,
        }
    }
}

/// The lines of dungeon level `i`: its peril boxes, then its combat boxes,
/// then an empty line below every level but the last.
pub open spec fn level_lines(d: Dungeon, i: i8) -> Option<Seq<char>> {
    let head = edged("Level "@ + int_text(i as int)) + edged("Peril:"@);
    let tail = if i < 3 {
        edged(Seq::empty())
    } else {
        Seq::empty()
    };
    then_text(
        then_text(
            then_text(Some(head), boxes_lines(d.peril_challenges@[i]@)),
            Some(edged("Combat:"@)),
        ),
        then_text(boxes_lines(d.combat_challenges@[i]@), Some(tail)),
    )
}

/// The card of a dungeon: its name in capitals, its difficulty and the
/// boxes of its three levels; nothing where a box cannot be written.
pub open spec fn dungeon_card_text(d: Dungeon) -> Option<Seq<char>> {
    let head = card_edge() + edged(upper_of(d.name@)) + edged("Difficulty: "@ + nat_text(d.difficulty as nat))
        + edged(Seq::empty());
    then_text(
        then_text(then_text(then_text(Some(head), level_lines(d, 1)), level_lines(d, 2)), level_lines(d, 3)),
        Some(card_edge()),
    )
}

/// Appends a card line for each box, as `boxes_lines` gives them; where a box
/// cannot be written, returns false.
fn append_boxes(out: &mut String, boxes: &Vec<ChallengeBox>) -> (ok: bool)
    ensures
        ok == boxes_lines(boxes@) is Some,
        ok ==> final(out)@ == old(out)@ + boxes_lines(boxes@)->Some_0,
{
    let ghost start = out@;
    let mut i: usize = 0;
    while i < boxes.len()
        invariant
            i <= boxes.len(),
            boxes_lines(boxes@.subrange(0, i as int)) is Some,
            out@ == start + boxes_lines(boxes@.subrange(0, i as int))->Some_0,
        decreases boxes.len() - i,
    {
        assert(boxes@.subrange(0, i as int + 1).drop_last() =~= boxes@.subrange(0, i as int));
        match boxes[i].to_text() {
            Some(t) => {
                let line = surround_with_edge(t.as_str());
                out.append(line.as_str());
            },
            None => {
                proof {
                    lemma_boxes_lines_none(boxes@, i as int + 1);
                }
                return false;
            },
        }
        i = i + 1;
    }
    assert(boxes@.subrange(0, boxes.len() as int) =~= boxes@);
    true
}

proof fn lemma_boxes_lines_none(s: Seq<ChallengeBox>, n: int)
    requires
        0 <= n <= s.len(),
        boxes_lines(s.subrange(0, n)) is None,
    ensures
        boxes_lines(s) is None,
    decreases s.len() - n,
{
    if n < s.len() {
        assert(s.subrange(0, n + 1).drop_last() =~= s.subrange(0, n));
        lemma_boxes_lines_none(s, n + 1);
    } else {
        assert(s.subrange(0, n) =~= s);
    }
}

/// The first two lines of a level: its number and the peril heading.
fn level_head(i: i8) -> (r: String)
    ensures
        r@ == edged("Level "@ + int_text(i as int)) + edged("Peril:"@),
{
    let mut title = String::from_str("Level ");
    let n = int_to_text(i as i64);
    title.append(n.as_str());
    let mut r = surround_with_edge(title.as_str());
    let line = surround_with_edge("Peril:");
    r.append(line.as_str());
    r
}

fn append_level(out: &mut String, d: &Dungeon, i: i8) -> (ok: bool)
    requires
        1 <= i <= 3,
        d.peril_challenges@.contains_key(i),
        d.combat_challenges@.contains_key(i),
    ensures
        ok == level_lines(*d, i) is Some,
        ok ==> final(out)@ == old(out)@ + level_lines(*d, i)->Some_0,
{
    broadcast use vstd::std_specs::hash::group_hash_axioms;

    let perils = d.peril_challenges.get(&i).unwrap();
    let combats = d.combat_challenges.get(&i).unwrap();
    let mut block = level_head(i);
    if !append_boxes(&mut block, perils) {
        return false;
    }
    let line = surround_with_edge("Combat:");
    block.append(line.as_str());
    let mut rest = String::new();
    if !append_boxes(&mut rest, combats) {
        return false;
    }
    if i < 3 {
        let line = surround_with_edge("");
        rest.append(line.as_str());
    }
    proof {
        reveal_strlit("");
        assert(""@ =~= Seq::<char>::empty());
    }
    block.append(rest.as_str());
    out.append(block.as_str());
    true
}

/// The dungeon's card, as `dungeon_card_text` gives it.
pub fn dungeon_card(d: &Dungeon) -> (r: Option<String>)
    requires
        forall|i: i8| 1 <= i <= 3 ==> #[trigger] d.peril_challenges@.contains_key(i),
        forall|i: i8| 1 <= i <= 3 ==> #[trigger] d.combat_challenges@.contains_key(i),
    ensures
        r is Some == dungeon_card_text(*d) is Some,
        r is Some ==> r->Some_0@ == dungeon_card_text(*d)->Some_0,
{
    let mut out = get_card_top_or_bottom();
    let name = uppercase(d.name.as_str());
    let line = surround_with_edge(name.as_str());
    out.append(line.as_str());
    let mut diff = String::from_str("Difficulty: ");
    let n = nat_to_text(d.difficulty as u64);
    diff.append(n.as_str());
    let line = surround_with_edge(diff.as_str());
    out.append(line.as_str());
    let line = surround_with_edge("");
    out.append(line.as_str());
    proof {
        reveal_strlit("");
        assert(""@ =~= Seq::<char>::empty());
    }
    let mut i: i8 = 1;
    while i <= 3
        invariant
            1 <= i <= 4,
            forall|k: i8| 1 <= k <= 3 ==> #[trigger] d.peril_challenges@.contains_key(k),
            forall|k: i8| 1 <= k <= 3 ==> #[trigger] d.combat_challenges@.contains_key(k),
            ({
                let head = card_edge() + edged(upper_of(d.name@)) + edged("Difficulty: "@ + nat_text(d.difficulty as nat))
                    + edged(Seq::empty());
                let sofar = if i == 1 {
                    Some(head)
                } else if i == 2 {
                    then_text(Some(head), level_lines(*d, 1))
                } else if i == 3 {
                    then_text(then_text(Some(head), level_lines(*d, 1)), level_lines(*d, 2))
                } else {
                    then_text(then_text(then_text(Some(head), level_lines(*d, 1)), level_lines(*d, 2)), level_lines(*d, 3))
                };
                sofar is Some && out@ == sofar->Some_0
            }),
        decreases 4 - i,
    {
        if !append_level(&mut out, d, i) {
            return None;
        }
        i = i + 1;
    }
    let edge = get_card_top_or_bottom();
    out.append(edge.as_str());
    Some(out)
}

/// `s` cut at every `c`, as `str::split` cuts it: `k` separators give `k + 1`
/// pieces, some of them possibly empty.
pub open spec fn split_on(s: Seq<char>, c: char) -> Seq<Seq<char>>
    decreases s.len(),
{
    if s.len() == 0 {
        seq![Seq::empty()]
    } else {
        let w = split_on(s.drop_last(), c);
        if s.last() == c {
            w.push(Seq::empty())
        } else {
            w.update(w.len() - 1, w.last().push(s.last()))
        }
    }
}

proof fn lemma_split_on_nonempty(s: Seq<char>, c: char)
    ensures
        split_on(s, c).len() >= 1,
    decreases s.len(),
{
    if s.len() > 0 {
        lemma_split_on_nonempty(s.drop_last(), c);
    }
}

/// Index of the first line break in `w`, or -1 where there is none.
pub open spec fn newline_pos(w: Seq<char>) -> int
    decreases w.len(),
{
    if w.len() == 0 {
        -1
    } else {
        let p = newline_pos(w.drop_last());
        if p >= 0 {
            p
        } else if w.last() == '\n' {
            w.len() - 1
        } else {
            -1
        }
    }
}

proof fn lemma_newline_pos_range(w: Seq<char>)
    ensures
        -1 <= newline_pos(w) < w.len(),
    decreases w.len(),
{
    if w.len() > 0 {
        lemma_newline_pos_range(w.drop_last());
    }
}

/// Laying out a description: the card lines written so far, the line being
/// gathered and its width so far.
pub struct WrapState {
    pub lines: Seq<char>,
    pub line: Seq<char>,
    pub col: nat,
}

/// Lays out one more word. Where it would reach the column width the line
/// being gathered is written first; a line break in the word ends the line
/// after the part before it; the rest of the word and a space join the line.
pub open spec fn wrap_word(st: WrapState, w: Seq<char>) -> WrapState {
    let st1 = if st.col + w.len() >= CARD_WIDTH {
        WrapState { lines: st.lines + edged(st.line), line: Seq::empty(), col: 0 }
    } else {
        st
    };
    let p = newline_pos(w);
    let rest = if p >= 0 {
        w.subrange(p + 1, w.len() as int)
    } else {
        w
    };
    let st2 = if p >= 0 {
        WrapState { lines: st1.lines + edged(st1.line + w.subrange(0, p)), line: Seq::empty(), col: 0 }
    } else {
        st1
    };
    WrapState { lines: st2.lines, line: st2.line + rest + seq![' '], col: st2.col + rest.len() + 1 }
}

/// Lays out the words one after the other.
pub open spec fn wrap_words(ws: Seq<Seq<char>>) -> WrapState
    decreases ws.len(),
{
    if ws.len() == 0 {
        WrapState { lines: Seq::empty(), line: Seq::empty(), col: 0 }
    } else {
        wrap_word(wrap_words(ws.drop_last()), ws.last())
    }
}

/// The card lines of a description, its words laid out to the column width.
pub open spec fn description_lines(d: Seq<char>) -> Seq<char> {
    let st = wrap_words(split_on(d, ' '));
    st.lines + edged(st.line)
}

/// `e`'s name where `es` holds it, else "Not " and the name.
pub open spec fn encounter_mark(es: Seq<Encounter>, e: Encounter) -> Seq<char> {
    if es.contains(e) {
        encounter_text(e)
    } else {
        "Not "@ + encounter_text(e)
    }
}

/// The lines of a heroic feat: its name, its description and the phases in
/// which it can and cannot be used, then an empty line.
pub open spec fn feat_lines(f: HeroicFeat) -> Seq<char> {
    let es = f.encounters@;
    edged("Heroic Feat: "@ + f.name@) + description_lines(f.description@) + edged(
        encounter_mark(es, Encounter::Combat) + ", "@ + encounter_mark(es, Encounter::Peril) + ", "@
            + encounter_mark(es, Encounter::Boss),
    ) + edged(Seq::empty())
}

/// One card line per attribute record; nothing where a record cannot be
/// written.
pub open spec fn attribute_lines(s: Seq<Attribute>) -> Option<Seq<char>>
    decreases s.len(),
{
    if s.len() == 0 {
        Some(Seq::empty())
    } else {
        match (attribute_lines(s.drop_last()), attribute_text(s.last())) {
            (Some(a), Some(t)) => Some(a + edged(t)),
            _ => None,
        }
    }
}

/// The line saying what a skill costs; nothing where the cost cannot be
/// written.
pub open spec fn requirement_line(k: Skill) -> Option<Seq<char>> {
    match k.requirements {
        Some(a) => match attribute_text(a) {
            Some(t) => Some(edged("Requirements: "@ + t)),
            None => None,
        },
        None => Some(edged("Requirements: Free skill"@)),
    }
}

/// The line of a skill's effect; nothing where it cannot be written.
pub open spec fn effect_line(k: Skill) -> Option<Seq<char>> {
    match effect_text(k.effect) {
        Some(t) => Some(edged(t)),
        None => None,
    }
}

/// The names of the phases, joined with ", ".
pub open spec fn encounters_text(es: Seq<Encounter>) -> Seq<char> {
    join_text(es.map_values(|e: Encounter| encounter_text(e)), ", "@)
}

/// The lines of a skill: its name, its description if any, what it costs,
/// its effect and the phases in which it can be used.
pub open spec fn skill_lines(k: Skill) -> Option<Seq<char>> {
    let head = edged("Skill: "@ + k.name@) + match k.description {
        Some(d) => edged(d@),
        None => Seq::empty(),
    };
    then_text(
        then_text(then_text(Some(head), requirement_line(k)), effect_line(k)),
        Some(edged(encounters_text(k.encounters@))),
    )
}

/// The lines of each skill in turn; nothing where one cannot be written.
pub open spec fn skills_lines(s: Seq<Skill>) -> Option<Seq<char>>
    decreases s.len(),
{
    if s.len() == 0 {
        Some(Seq::empty())
    } else {
        then_text(skills_lines(s.drop_last()), skill_lines(s.last()))
    }
}

/// The card of a hero: its name in capitals, its attributes, an empty line,
/// its heroic feat and its skills; nothing where a part cannot be written.
pub open spec fn hero_card_text(h: Hero) -> Option<Seq<char>> {
    let head = card_edge() + edged(upper_of(h.name@));
    then_text(
        then_text(
            then_text(Some(head), attribute_lines(h.attributes@)),
            Some(edged(Seq::empty()) + feat_lines(h.heroic_feat)),
        ),
        then_text(skills_lines(h.skills@), Some(card_edge())),
    )
}

/// Cuts `s` at every space, as `split_on` does.
fn split_words(s: &str) -> (r: Vec<String>)
    ensures
        texts_of(r@) == split_on(s@, ' '),
        forall|j: int| 0 <= j < r@.len() ==> (#[trigger] r@[j])@.len() <= s@.len(),
{
    let n = s.unicode_len();
    let mut words: Vec<String> = Vec::new();
    let mut start: usize = 0;
    let mut i: usize = 0;
    assert(s@.subrange(0, 0) =~= Seq::<char>::empty());
    assert(texts_of(words@).push(s@.subrange(0, 0)) =~= seq![Seq::<char>::empty()]);
    while i < n
        invariant
            n == s@.len(),
            start <= i <= n,
            texts_of(words@).push(s@.subrange(start as int, i as int)) == split_on(s@.subrange(0, i as int), ' '),
            forall|j: int| 0 <= j < words@.len() ==> (#[trigger] words@[j])@.len() <= s@.len(),
        decreases n - i,
    {
        let c = s.get_char(i);
        let ghost prev = split_on(s@.subrange(0, i as int), ' ');
        assert(s@.subrange(0, i as int + 1).drop_last() =~= s@.subrange(0, i as int));
        assert(s@.subrange(0, i as int + 1).last() == c);
        if c == ' ' {
            let w = String::from_str(s.substring_char(start, i));
            words.push(w);
            start = i + 1;
            assert(texts_of(words@) =~= prev);
            assert(s@.subrange(start as int, i as int + 1) =~= Seq::<char>::empty());
            assert(texts_of(words@).push(s@.subrange(start as int, i as int + 1)) =~= prev.push(Seq::empty()));
        } else {
            assert(s@.subrange(start as int, i as int + 1) =~= s@.subrange(start as int, i as int).push(c));
            assert(texts_of(words@).push(s@.subrange(start as int, i as int + 1)) =~= prev.update(
                prev.len() - 1,
                prev.last().push(c),
            ));
        }
        i = i + 1;
    }
    assert(s@.subrange(0, n as int) =~= s@);
    let w = String::from_str(s.substring_char(start, n));
    let ghost before = texts_of(words@);
    words.push(w);
    assert(texts_of(words@) =~= before.push(s@.subrange(start as int, n as int)));
    words
}

/// Where the first line break of `w` stands, as `newline_pos` gives it.
fn find_newline(w: &str) -> (r: Option<usize>)
    ensures
        match r {
            Some(p) => newline_pos(w@) == p,
            None => newline_pos(w@) == -1,
        },
{
    let n = w.unicode_len();
    let mut found: Option<usize> = None;
    let mut i: usize = 0;
    assert(w@.subrange(0, 0).len() == 0);
    while i < n
        invariant
            n == w@.len(),
            i <= n,
            match found {
                Some(p) => newline_pos(w@.subrange(0, i as int)) == p,
                None => newline_pos(w@.subrange(0, i as int)) == -1,
            },
        decreases n - i,
    {
        assert(w@.subrange(0, i as int + 1).drop_last() =~= w@.subrange(0, i as int));
        let c = w.get_char(i);
        if found.is_none() && c == '\n' {
            found = Some(i);
        }
        i = i + 1;
    }
    assert(w@.subrange(0, n as int) =~= w@);
    found
}

/// Appends the lines of a description laid out to the column width, as
/// `description_lines` gives them.
fn append_description(out: &mut String, d: &str)
    requires
        d@.len() < usize::MAX / 4,
    ensures
        final(out)@ == old(out)@ + description_lines(d@),
{
    let words = split_words(d);
    let ghost ws = texts_of(words@);
    let ghost start = out@;
    let mut line = String::new();
    let mut col: usize = 0;
    let mut i: usize = 0;
    while i < words.len()
        invariant
            i <= words.len(),
            ws == texts_of(words@),
            ws == split_on(d@, ' '),
            d@.len() < usize::MAX / 4,
            forall|j: int| 0 <= j < words@.len() ==> (#[trigger] words@[j])@.len() <= d@.len(),
            col <= CARD_WIDTH + d@.len(),
            ({
                let st = wrap_words(ws.subrange(0, i as int));
                &&& out@ == start + st.lines
                &&& line@ == st.line
                &&& col as nat == st.col
            }),
        decreases words.len() - i,
    {
        assert(ws.subrange(0, i as int + 1).drop_last() =~= ws.subrange(0, i as int));
        let w = words[i].as_str();
        assert(w@ == ws[i as int]);
        let wl = w.unicode_len();
        if col + wl >= CARD_WIDTH {
            split_line_long_description(out, &mut line, &mut col);
        }
        proof {
            lemma_newline_pos_range(w@);
        }
        let rest: &str = match find_newline(w) {
            Some(p) => {
                let before = w.substring_char(0, p);
                line.append(before);
                split_line_long_description(out, &mut line, &mut col);
                w.substring_char(p + 1, wl)
            },
            None => w,
        };
        line.append(rest);
        proof {
            reveal_strlit(" ");
        }
        assert(" "@ =~= seq![' ']);
        line.append(" ");
        let rl = rest.unicode_len();
        col = col + rl + 1;
        i = i + 1;
    }
    assert(ws.subrange(0, words.len() as int) =~= ws);
    let last = surround_with_edge(line.as_str());
    out.append(last.as_str());
}

fn append_attributes(out: &mut String, s: &Vec<Attribute>) -> (ok: bool)
    ensures
        ok == attribute_lines(s@) is Some,
        ok ==> final(out)@ == old(out)@ + attribute_lines(s@)->Some_0,
{
    let ghost start = out@;
    let mut i: usize = 0;
    while i < s.len()
        invariant
            i <= s.len(),
            attribute_lines(s@.subrange(0, i as int)) is Some,
            out@ == start + attribute_lines(s@.subrange(0, i as int))->Some_0,
        decreases s.len() - i,
    {
        assert(s@.subrange(0, i as int + 1).drop_last() =~= s@.subrange(0, i as int));
        match s[i].to_text() {
            Some(t) => {
                let line = surround_with_edge(t.as_str());
                out.append(line.as_str());
            },
            None => {
                proof {
                    lemma_attribute_lines_none(s@, i as int + 1);
                }
                return false;
            },
        }
        i = i + 1;
    }
    assert(s@.subrange(0, s.len() as int) =~= s@);
    true
}

proof fn lemma_attribute_lines_none(s: Seq<Attribute>, n: int)
    requires
        0 <= n <= s.len(),
        attribute_lines(s.subrange(0, n)) is None,
    ensures
        attribute_lines(s) is None,
    decreases s.len() - n,
{
    if n < s.len() {
        assert(s.subrange(0, n + 1).drop_last() =~= s.subrange(0, n));
        lemma_attribute_lines_none(s, n + 1);
    } else {
        assert(s.subrange(0, n) =~= s);
    }
}

/// Whether `es` holds `e`.
fn has_encounter(es: &Vec<Encounter>, e: Encounter) -> (r: bool)
    ensures
        r == es@.contains(e),
{
    let mut i: usize = 0;
    while i < es.len()
        invariant
            i <= es.len(),
            forall|j: int| 0 <= j < i ==> es@[j] != e,
        decreases es.len() - i,
    {
        if es[i] == e {
            return true;
        }
        i = i + 1;
    }
    false
}

fn encounter_mark_text(es: &Vec<Encounter>, e: Encounter) -> (r: String)
    ensures
        r@ == encounter_mark(es@, e),
{
    if has_encounter(es, e) {
        e.to_text()
    } else {
        let mut r = String::from_str("Not ");
        let t = e.to_text();
        r.append(t.as_str());
        r
    }
}

fn append_feat(out: &mut String, f: &HeroicFeat)
    requires
        f.description@.len() < usize::MAX / 4,
    ensures
        final(out)@ == old(out)@ + feat_lines(*f),
{
    let mut title = String::from_str("Heroic Feat: ");
    title.append(f.name.as_str());
    let line = surround_with_edge(title.as_str());
    out.append(line.as_str());
    append_description(out, f.description.as_str());
    let mut marks = encounter_mark_text(&f.encounters, Encounter::Combat);
    marks.append(", ");
    let m = encounter_mark_text(&f.encounters, Encounter::Peril);
    marks.append(m.as_str());
    marks.append(", ");
    let m = encounter_mark_text(&f.encounters, Encounter::Boss);
    marks.append(m.as_str());
    let line = surround_with_edge(marks.as_str());
    out.append(line.as_str());
    let line = surround_with_edge("");
    out.append(line.as_str());
    proof {
        reveal_strlit("");
        assert(""@ =~= Seq::<char>::empty());
    }
}

fn requirement_line_text(k: &Skill) -> (r: Option<String>)
    ensures
        r is Some == requirement_line(*k) is Some,
        r is Some ==> r->Some_0@ == requirement_line(*k)->Some_0,
{
    match &k.requirements {
        Some(a) => match a.to_text() {
            Some(t) => {
                let mut req = String::from_str("Requirements: ");
                req.append(t.as_str());
                Some(surround_with_edge(req.as_str()))
            },
            None => None,
        },
        None => Some(surround_with_edge("Requirements: Free skill")),
    }
}

fn effect_line_text(k: &Skill) -> (r: Option<String>)
    ensures
        r is Some == effect_line(*k) is Some,
        r is Some ==> r->Some_0@ == effect_line(*k)->Some_0,
{
    match k.effect.to_text() {
        Some(t) => Some(surround_with_edge(t.as_str())),
        None => None,
    }
}

fn encounters_to_text(es: &Vec<Encounter>) -> (r: String)
    ensures
        r@ == encounters_text(es@),
{
    let mut names: Vec<String> = Vec::new();
    let mut i: usize = 0;
    while i < es.len()
        invariant
            i <= es.len(),
            names@.len() == i,
            forall|j: int| 0 <= j < i ==> (#[trigger] names@[j])@ == encounter_text(es@[j]),
        decreases es.len() - i,
    {
        names.push(es[i].to_text());
        i = i + 1;
    }
    assert(texts_of(names@) =~= es@.map_values(|e: Encounter| encounter_text(e)));
    join_texts(&names, ", ")
}

fn append_skill(out: &mut String, k: &Skill) -> (ok: bool)
    ensures
        ok == skill_lines(*k) is Some,
        ok ==> final(out)@ == old(out)@ + skill_lines(*k)->Some_0,
{
    let mut title = String::from_str("Skill: ");
    title.append(k.name.as_str());
    let mut block = surround_with_edge(title.as_str());
    match &k.description {
        Some(d) => {
            let line = surround_with_edge(d.as_str());
            block.append(line.as_str());
        },
        None => {},
    }
    let req = match requirement_line_text(k) {
        Some(t) => t,
        None => {
            return false;
        },
    };
    block.append(req.as_str());
    let eff = match effect_line_text(k) {
        Some(t) => t,
        None => {
            return false;
        },
    };
    block.append(eff.as_str());
    let names = encounters_to_text(&k.encounters);
    let line = surround_with_edge(names.as_str());
    block.append(line.as_str());
    out.append(block.as_str());
    true
}

fn append_skills(out: &mut String, s: &Vec<Skill>) -> (ok: bool)
    ensures
        ok == skills_lines(s@) is Some,
        ok ==> final(out)@ == old(out)@ + skills_lines(s@)->Some_0,
{
    let ghost start = out@;
    let mut i: usize = 0;
    while i < s.len()
        invariant
            i <= s.len(),
            skills_lines(s@.subrange(0, i as int)) is Some,
            out@ == start + skills_lines(s@.subrange(0, i as int))->Some_0,
        decreases s.len() - i,
    {
        assert(s@.subrange(0, i as int + 1).drop_last() =~= s@.subrange(0, i as int));
        if !append_skill(out, &s[i]) {
            proof {
                lemma_skills_lines_none(s@, i as int + 1);
            }
            return false;
        }
        i = i + 1;
    }
    assert(s@.subrange(0, s.len() as int) =~= s@);
    true
}

proof fn lemma_skills_lines_none(s: Seq<Skill>, n: int)
    requires
        0 <= n <= s.len(),
        skills_lines(s.subrange(0, n)) is None,
    ensures
        skills_lines(s) is None,
    decreases s.len() - n,
{
    if n < s.len() {
        assert(s.subrange(0, n + 1).drop_last() =~= s.subrange(0, n));
        lemma_skills_lines_none(s, n + 1);
    } else {
        assert(s.subrange(0, n) =~= s);
    }
}

/// The hero's card, as `hero_card_text` gives it.
pub fn hero_card(h: &Hero) -> (r: Option<String>)
    requires
        h.heroic_feat.description@.len() < usize::MAX / 4,
    ensures
        r is Some == hero_card_text(*h) is Some,
        r is Some ==> r->Some_0@ == hero_card_text(*h)->Some_0,
{
    let mut out = get_card_top_or_bottom();
    let name = uppercase(h.name.as_str());
    let line = surround_with_edge(name.as_str());
    out.append(line.as_str());
    if !append_attributes(&mut out, &h.attributes) {
        return None;
    }
    let line = surround_with_edge("");
    out.append(line.as_str());
    proof {
        reveal_strlit("");
        assert(""@ =~= Seq::<char>::empty());
    }
    append_feat(&mut out, &h.heroic_feat);
    if !append_skills(&mut out, &h.skills) {
        return None;
    }
    let edge = get_card_top_or_bottom();
    out.append(edge.as_str());
    Some(out)
}

} // verus!
