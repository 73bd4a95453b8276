use vstd::prelude::*;
use vstd::string::*;

use crate::chat::texts;

verus! {

broadcast use vstd::string::group_string_axioms;

/// The number of emoji that the emoji panel offers.
pub const PANEL_SIZE: usize = 19;

/// The emoji of the emoji panel, in the order of its buttons.
pub open spec fn panel_emoji() -> Seq<Seq<char>> {
    seq![
        "😃"@, "😁"@, "😂"@, "😄"@, "😅"@, "😆"@, "😉"@, "😍"@, "😐"@, "✡"@,
        "😇"@, "👽"@, "👾"@, "💀"@, "👳"@, "👴"@, "👵"@, "👱"@, "👲"@,
    ]
}

/// The last of the buttons that were clicked, if any.
pub open spec fn last_clicked(clicked: Seq<bool>) -> Option<int>
    decreases clicked.len(),
{
    if clicked.len() == 0 {
        None
    } else if clicked.last() {
        Some(clicked.len() - 1)
    } else {
        last_clicked(clicked.drop_last())
    }
}

/// The emoji that the panel hands out for the buttons clicked: that of the last one
/// clicked, nothing where none was.
pub open spec fn picked_emoji(clicked: Seq<bool>) -> Seq<char> {
    match last_clicked(clicked) {
        Some(i) => panel_emoji()[i],
        None => Seq::empty(),
    }
}

proof fn lemma_last_clicked_bounds(clicked: Seq<bool>)
    ensures
        last_clicked(clicked) matches Some(i) ==> 0 <= i < clicked.len(),
    decreases clicked.len(),
{
    if clicked.len() > 0 && !clicked.last() {
        lemma_last_clicked_bounds(clicked.drop_last());
    }
}

/// The characters that the panel's buttons hand out, one each, in the order of the buttons.
pub open spec fn panel_code_points() -> Seq<char> {
    seq![
        '\u{1F603}', '\u{1F601}', '\u{1F602}', '\u{1F604}', '\u{1F605}', '\u{1F606}',
        '\u{1F609}', '\u{1F60D}', '\u{1F610}', '\u{2721}', '\u{1F607}', '\u{1F47D}',
        '\u{1F47E}', '\u{1F480}', '\u{1F473}', '\u{1F474}', '\u{1F475}', '\u{1F471}',
        '\u{1F472}',
    ]
}

proof fn lemma_panel_emoji_chars()
    ensures
        panel_emoji().len() == PANEL_SIZE,
        forall|i: int| 0 <= i < PANEL_SIZE ==> #[trigger] panel_emoji()[i] == seq![panel_code_points()[i]],
{
    reveal_strlit("😃");
    reveal_strlit("😁");
    reveal_strlit("😂");
    reveal_strlit("😄");
    reveal_strlit("😅");
    reveal_strlit("😆");
    reveal_strlit("😉");
    reveal_strlit("😍");
    reveal_strlit("😐");
    reveal_strlit("✡");
    reveal_strlit("😇");
    reveal_strlit("👽");
    reveal_strlit("👾");
    reveal_strlit("💀");
    reveal_strlit("👳");
    reveal_strlit("👴");
    reveal_strlit("👵");
    reveal_strlit("👱");
    reveal_strlit("👲");
    assert forall|i: int| 0 <= i < PANEL_SIZE implies #[trigger] panel_emoji()[i] == seq![panel_code_points()[i]] by {
        assert(panel_emoji()[i] =~= seq![panel_code_points()[i]]);
    }
}

/// Whatever buttons were clicked, the panel hands out the single character of the last
/// button clicked: U+1F603, U+1F601, U+1F602, U+1F604, U+1F605, U+1F606, U+1F609, U+1F60D,
/// U+1F610, U+2721, U+1F607, U+1F47D, U+1F47E, U+1F480, U+1F473, U+1F474, U+1F475, U+1F471
/// and U+1F472, button by button.
pub proof fn lemma_last_click_picks(clicked: Seq<bool>, i: int)
    requires
        clicked.len() == PANEL_SIZE,
        0 <= i < PANEL_SIZE,
        clicked[i],
        forall|j: int| i < j < PANEL_SIZE ==> !#[trigger] clicked[j],
    ensures
        picked_emoji(clicked) == seq![panel_code_points()[i]],
{
    lemma_panel_emoji_chars();
    lemma_last_clicked_at(clicked, i);
}

proof fn lemma_last_clicked_at(clicked: Seq<bool>, i: int)
    requires
        0 <= i < clicked.len(),
        clicked[i],
        forall|j: int| i < j < clicked.len() ==> !#[trigger] clicked[j],
    ensures
        last_clicked(clicked) == Some(i),
    decreases clicked.len(),
{
    if i < clicked.len() - 1 {
        let t = clicked.drop_last();
        assert(!clicked[clicked.len() - 1]);
        assert forall|j: int| i < j < t.len() implies !#[trigger] t[j] by {
            assert(t[j] == clicked[j]);
        }
        lemma_last_clicked_at(t, i);
    }
}

/// No button clicked, nothing handed out.
pub proof fn lemma_no_click_picks_nothing(clicked: Seq<bool>)
    requires
        forall|j: int| 0 <= j < clicked.len() ==> !#[trigger] clicked[j],
    ensures
        picked_emoji(clicked) == Seq::<char>::empty(),
    decreases clicked.len(),
{
    if clicked.len() > 0 {
        let t = clicked.drop_last();
        assert(!clicked[clicked.len() - 1]);
        assert forall|j: int| 0 <= j < t.len() implies !#[trigger] t[j] by {
            assert(t[j] == clicked[j]);
        }
        lemma_no_click_picks_nothing(t);
    }
}

/// The emoji of the emoji panel, as a list in the order of its buttons.
pub fn panel_emoji_list() -> (list: Vec<String>)
    ensures
        texts(list@) == panel_emoji(),
        list@.len() == PANEL_SIZE,
{
    let mut list: Vec<String> = Vec::new();
    list.push(String::from_str("😃"));
    list.push(String::from_str("😁"));
    list.push(String::from_str("😂"));
    list.push(String::from_str("😄"));
    list.push(String::from_str("😅"));
    list.push(String::from_str("😆"));
    list.push(String::from_str("😉"));
    list.push(String::from_str("😍"));
    list.push(String::from_str("😐"));
    list.push(String::from_str("✡"));
    list.push(String::from_str("😇"));
    list.push(String::from_str("👽"));
    list.push(String::from_str("👾"));
    list.push(String::from_str("💀"));
    list.push(String::from_str("👳"));
    list.push(String::from_str("👴"));
    list.push(String::from_str("👵"));
    list.push(String::from_str("👱"));
    list.push(String::from_str("👲"));
    assert(texts(list@) =~= panel_emoji());
    list
}

/// What the emoji panel hands out in one frame, given which of its buttons were clicked,
/// in the order of the buttons: the emoji of the last button clicked, or the empty text.
pub fn emojiui(clicked: &[bool]) -> (emoji: String)
    requires
        clicked@.len() == PANEL_SIZE,
    ensures
        emoji@ == picked_emoji(clicked@),
{
    let list = panel_emoji_list();
    let mut emoji = String::new();
    let mut i: usize = 0;
    while i < PANEL_SIZE
        invariant
            clicked@.len() == PANEL_SIZE,
            texts(list@) == panel_emoji(),
            list@.len() == PANEL_SIZE,
            i <= PANEL_SIZE,
            emoji@ == picked_emoji(clicked@.take(i as int)),
        decreases PANEL_SIZE - i,
    {
        proof {
            let next = clicked@.take(i as int + 1);
            assert(next.drop_last() =~= clicked@.take(i as int));
            assert(next.last() == clicked@[i as int]);
            lemma_last_clicked_bounds(clicked@.take(i as int));
        }
        if clicked[i] {
            emoji = list[i].clone();
            assert(texts(list@)[i as int] == list@[i as int]@);
        }
        i = i + 1;
    }
    assert(clicked@.take(PANEL_SIZE as int) =~= clicked@);
    emoji
}

} // verus!
