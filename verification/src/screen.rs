//! The screens outside play: the title, the main menu, the episode
//! chooser and the paged text sequences, and the font's character map.
use vstd::prelude::*;
use vstd::string::StringExecFns;
use crate::input::Key;
use crate::panel::{frame_left, TextFrame};
use crate::textpages::{
    bbs, bbs_text, instructions, instructions_text, ordering, ordering_text, pages_text, sequence_ok, story, story_text,
    TextPage,
};

verus! {

/// Font tile for the solid panel background.
pub const FONT_BACKGROUND_GRAY: usize = 97;

/// Which screen is up.
#[derive(Clone, Copy, PartialEq, Eq, Debug, Hash, Structural)]
pub enum GameState {
    Title,
    Menu,
    Credits,
    Controls,
    Episodes,
    TextPages,
    HighScores,
    Playing,
}

/// The font runs in ASCII order but skips the six symbols between `Z` and
/// `a`; anything else has no glyph. (The `/` slot holds a pound-sign-like
/// glyph in the shipped artwork.)
pub open spec fn font_tile_spec(c: char) -> Option<usize> {
    if ' ' <= c <= 'Z' {
        Some((c as usize - 22) as usize)
    } else if 'a' <= c <= 'z' {
        Some((c as usize - 28) as usize)
    } else {
        None
    }
}

pub fn font_tile_for_char(c: char) -> (r: Option<usize>)
    ensures
        r == font_tile_spec(c),
{
    if ' ' <= c && c <= 'Z' {
        Some(c as usize - 22)
    } else if 'a' <= c && c <= 'z' {
        Some(c as usize - 28)
    } else {
        None
    }
}

/// What a main-menu entry does.
#[derive(Clone, Copy, PartialEq, Eq, Debug, Structural)]
pub enum MenuAction {
    Begin,
    Episodes,
    Story,
    Instructions,
    OrderingInfo,
    Bbs,
    HighScores,
    Controls,
    Credits,
    Title,
    Quit,
}

/// The menu's entries, in order, with what each does.
pub open spec fn menu_items_spec() -> Seq<(Seq<char>, MenuAction)> {
    seq![
        (" B)egin New Game"@, MenuAction::Begin),
        (" G)ame Redefine"@, MenuAction::Controls),
        (" E)pisode"@, MenuAction::Episodes),
        (" S)tory"@, MenuAction::Story),
        (" I)nstructions"@, MenuAction::Instructions),
        (" O)rdering Info."@, MenuAction::OrderingInfo),
        (" A)pogee's BBS"@, MenuAction::Bbs),
        (" H)igh Scores"@, MenuAction::HighScores),
        (" C)redits"@, MenuAction::Credits),
        (" T)itle Screen"@, MenuAction::Title),
        (" Q)uit Game"@, MenuAction::Quit),
    ]
}

pub fn menu_items() -> (r: Vec<(&'static str, MenuAction)>)
    ensures
        r@.len() == menu_items_spec().len(),
        forall|i: int| 0 <= i < r@.len() ==> (#[trigger] r@[i]).0@ == menu_items_spec()[i].0 && r@[i].1 == menu_items_spec()[i].1,
{
    vec![
        (" B)egin New Game", MenuAction::Begin),
        (" G)ame Redefine", MenuAction::Controls),
        (" E)pisode", MenuAction::Episodes),
        (" S)tory", MenuAction::Story),
        (" I)nstructions", MenuAction::Instructions),
        (" O)rdering Info.", MenuAction::OrderingInfo),
        (" A)pogee's BBS", MenuAction::Bbs),
        (" H)igh Scores", MenuAction::HighScores),
        (" C)redits", MenuAction::Credits),
        (" T)itle Screen", MenuAction::Title),
        (" Q)uit Game", MenuAction::Quit),
    ]
}

/// Where the menu's text goes: the heading at column 15 of row 3, then the
/// entries from row 5, one every other row, at column 11 (the frame
/// `UnfoldTextFrame(2, 20, 20, "MAIN MENU", "")` would give).
pub fn menu_layout() -> (r: Vec<(i32, i32, &'static str)>)
    ensures
        r@.len() == menu_items_spec().len() + 1,
        r@[0].0 == 15 && r@[0].1 == 3 && r@[0].2@ == "MAIN MENU"@,
        forall|i: int| 0 <= i < menu_items_spec().len() ==> (#[trigger] r@[i + 1]).0 == 11 && r@[i + 1].1 == 5 + 2 * i
            && r@[i + 1].2@ == menu_items_spec()[i].0,
{
    let items = menu_items();
    let mut r: Vec<(i32, i32, &'static str)> = Vec::new();
    r.push((15, 3, "MAIN MENU"));
    let mut i: usize = 0;
    while i < items.len()
        invariant
            items@.len() == menu_items_spec().len(),
            forall|k: int| 0 <= k < items@.len() ==> (#[trigger] items@[k]).0@ == menu_items_spec()[k].0,
            i <= items@.len(),
            r@.len() == i + 1,
            r@[0].0 == 15 && r@[0].1 == 3 && r@[0].2@ == "MAIN MENU"@,
            forall|k: int| 0 <= k < i ==> (#[trigger] r@[k + 1]).0 == 11 && r@[k + 1].1 == 5 + 2 * k
                && r@[k + 1].2@ == menu_items_spec()[k].0,
        decreases items@.len() - i,
    {
        r.push((11, 5 + 2 * i as i32, items[i].0));
        i = i + 1;
    }
    r
}

/// The first menu key among those just pressed, in the menu's priority.
pub open spec fn menu_choice_spec(keys: Seq<Key>) -> Option<MenuAction> {
    if keys.contains(Key::KeyB) || keys.contains(Key::Enter) {
        Some(MenuAction::Begin)
    } else if keys.contains(Key::KeyG) {
        Some(MenuAction::Controls)
    } else if keys.contains(Key::KeyE) {
        Some(MenuAction::Episodes)
    } else if keys.contains(Key::KeyS) {
        Some(MenuAction::Story)
    } else if keys.contains(Key::KeyI) {
        Some(MenuAction::Instructions)
    } else if keys.contains(Key::KeyO) {
        Some(MenuAction::OrderingInfo)
    } else if keys.contains(Key::KeyA) {
        Some(MenuAction::Bbs)
    } else if keys.contains(Key::KeyH) {
        Some(MenuAction::HighScores)
    } else if keys.contains(Key::KeyC) {
        Some(MenuAction::Credits)
    } else if keys.contains(Key::KeyT) {
        Some(MenuAction::Title)
    } else if keys.contains(Key::KeyQ) || keys.contains(Key::Escape) {
        Some(MenuAction::Quit)
    } else {
        None
    }
}

/// Whether `key` is among `keys`.
pub fn pressed(keys: &Vec<Key>, key: Key) -> (r: bool)
    ensures
        r == keys@.contains(key),
{
    let mut i: usize = 0;
    while i < keys.len()
        invariant
            i <= keys@.len(),
            forall|j: int| 0 <= j < i ==> keys@[j] != key,
        decreases keys@.len() - i,
    {
        if keys[i] == key {
            return true;
        }
        i = i + 1;
    }
    false
}

/// The menu entry the keys just pressed choose.
pub fn menu_choice(keys: &Vec<Key>) -> (r: Option<MenuAction>)
    ensures
        r == menu_choice_spec(keys@),
{
    if pressed(keys, Key::KeyB) || pressed(keys, Key::Enter) {
        Some(MenuAction::Begin)
    } else if pressed(keys, Key::KeyG) {
        Some(MenuAction::Controls)
    } else if pressed(keys, Key::KeyE) {
        Some(MenuAction::Episodes)
    } else if pressed(keys, Key::KeyS) {
        Some(MenuAction::Story)
    } else if pressed(keys, Key::KeyI) {
        Some(MenuAction::Instructions)
    } else if pressed(keys, Key::KeyO) {
        Some(MenuAction::OrderingInfo)
    } else if pressed(keys, Key::KeyA) {
        Some(MenuAction::Bbs)
    } else if pressed(keys, Key::KeyH) {
        Some(MenuAction::HighScores)
    } else if pressed(keys, Key::KeyC) {
        Some(MenuAction::Credits)
    } else if pressed(keys, Key::KeyT) {
        Some(MenuAction::Title)
    } else if pressed(keys, Key::KeyQ) || pressed(keys, Key::Escape) {
        Some(MenuAction::Quit)
    } else {
        None
    }
}

/// The screen a menu entry leads to; quitting leads nowhere.
pub open spec fn menu_target(a: MenuAction) -> Option<GameState> {
    match a {
        MenuAction::Begin => Some(GameState::Playing),
        MenuAction::Controls => Some(GameState::Controls),
        MenuAction::Episodes => Some(GameState::Episodes),
        MenuAction::Story | MenuAction::Instructions | MenuAction::OrderingInfo | MenuAction::Bbs => Some(GameState::TextPages),
        MenuAction::HighScores => Some(GameState::HighScores),
        MenuAction::Credits => Some(GameState::Credits),
        MenuAction::Title => Some(GameState::Title),
        MenuAction::Quit => None,
    }
}

/// The paged sequence open, and how far through it the reader is.
pub struct TextPages {
    pub pages: Vec<TextPage>,
    pub index: usize,
}

impl TextPages {
    /// Opens on the story, so there is always a real page to show.
    pub fn default() -> (p: Self)
        ensures
            p.index == 0,
            p.pages@.len() == 6,
            sequence_ok(p.pages@),
            pages_text(p.pages@) == story_text(),
    {
        TextPages { pages: story(), index: 0 }
    }

    /// Opens a sequence at its first page.
    pub fn set(&mut self, pages: Vec<TextPage>)
        ensures
            final(self).pages@ == pages@,
            final(self).index == 0,
    {
        self.pages = pages;
        self.index = 0;
    }

    /// Advances, stopping at the last page: false when there is nowhere
    /// further to go, which is what closes the sequence.
    pub fn next_page(&mut self) -> (r: bool)
        ensures
            r == (old(self).index + 1 < old(self).pages@.len()),
            final(self).index == if r { old(self).index + 1 } else { old(self).index as int },
            final(self).pages@ == old(self).pages@,
    {
        if self.pages.len() == 0 || self.index >= self.pages.len() - 1 {
            return false;
        }
        self.index = self.index + 1;
        true
    }

    /// Steps back, stopping at the first page.
    pub fn prev_page(&mut self)
        ensures
            final(self).index == if old(self).index == 0 { 0 } else { old(self).index - 1 },
            final(self).pages@ == old(self).pages@,
    {
        self.index = if self.index == 0 { 0 } else { self.index - 1 };
    }

    /// The frame for the page being read: the page's own frame, its lines
    /// at the frame's text column plus their offsets; none past the end.
    pub fn page_frame(&self) -> (r: Option<TextFrame>)
        requires
            forall|i: int| 0 <= i < self.pages@.len() ==> (#[trigger] self.pages@[i]).is_drawable(),
        ensures
            r is Some <==> self.index < self.pages@.len(),
            r matches Some(f) ==> ({
                let page = self.pages@[self.index as int];
                &&& f.top == page.top && f.height == page.height && f.width == page.width
                &&& f.title@ == page.title@ && f.bottom@ == page.bottom@
                &&& f.lines_spec() == Seq::new(page.lines@.len(), |j: int| (frame_left(page.width as int) + 1 + page.lines@[j].0,
                    page.lines@[j].1 as int, page.lines@[j].2@))
            }),
    {
        if self.index >= self.pages.len() {
            return None;
        }
        let page = &self.pages[self.index];
        assert(page.is_drawable());
        let mut frame = TextFrame::new(page.top, page.height, page.width, page.title, page.bottom);
        let x0 = frame.text_x();
        let ghost want = Seq::new(page.lines@.len(), |j: int| (frame_left(page.width as int) + 1 + page.lines@[j].0,
            page.lines@[j].1 as int, page.lines@[j].2@));
        let mut i: usize = 0;
        while i < page.lines.len()
            invariant
                page.is_drawable(),
                i <= page.lines@.len(),
                x0 == frame_left(page.width as int) + 1,
                frame.top == page.top && frame.height == page.height && frame.width == page.width,
                frame.title@ == page.title@ && frame.bottom@ == page.bottom@,
                want == Seq::new(page.lines@.len(), |j: int| (frame_left(page.width as int) + 1 + page.lines@[j].0,
                    page.lines@[j].1 as int, page.lines@[j].2@)),
                frame.lines_spec() == want.subrange(0, i as int),
            decreases page.lines@.len() - i,
        {
            let (dx, row, text) = page.lines[i];
            assert(0 <= page.lines@[i as int].0 <= 40);
            frame = frame.line(x0 + dx, row, text);
            proof {
                assert(want.subrange(0, i + 1) =~= want.subrange(0, i as int).push(want[i as int]));
            }
            i = i + 1;
        }
        proof {
            assert(want.subrange(0, page.lines@.len() as int) =~= want);
        }
        Some(frame)
    }

    /// A key on a text page: Escape leaves for the menu; PgUp or Left goes
    /// back a page; any other key goes forward, and running off the end
    /// leaves for the menu.
    pub fn on_key(&mut self, escape: bool, back: bool, any: bool) -> (r: PageStep)
        ensures
            escape ==> r == PageStep::ToMenu && *final(self) == *old(self),
            !escape && back ==> r == PageStep::Redraw && final(self).index == (if old(self).index == 0 { 0 } else { old(self).index - 1 }),
            !escape && !back && any ==> (if old(self).index + 1 < old(self).pages@.len() {
                r == PageStep::Redraw && final(self).index == old(self).index + 1
            } else {
                r == PageStep::ToMenu && final(self).index == old(self).index
            }),
            !escape && !back && !any ==> r == PageStep::Stay && final(self).index == old(self).index,
            final(self).pages@ == old(self).pages@,
    {
        if escape {
            return PageStep::ToMenu;
        }
        if back {
            self.prev_page();
            PageStep::Redraw
        } else if any {
            if !self.next_page() {
                PageStep::ToMenu
            } else {
                PageStep::Redraw
            }
        } else {
            PageStep::Stay
        }
    }
}

/// What a key on a text page leads to.
#[derive(Clone, Copy, PartialEq, Eq, Debug, Structural)]
pub enum PageStep {
    /// Back to the main menu.
    ToMenu,
    /// Show the page now current.
    Redraw,
    /// Nothing happened.
    Stay,
}

/// Carries out a menu entry: the sequences open their pages first. Gives
/// the screen to go to; quitting gives none.
pub fn open_menu_action(action: MenuAction, pages: &mut TextPages) -> (r: Option<GameState>)
    ensures
        r == menu_target(action),
        action == MenuAction::Story || action == MenuAction::Instructions || action == MenuAction::OrderingInfo
            || action == MenuAction::Bbs ==> final(pages).index == 0 && sequence_ok(final(pages).pages@),
        action == MenuAction::Story ==> pages_text(final(pages).pages@) == story_text(),
        action == MenuAction::Instructions ==> pages_text(final(pages).pages@) == instructions_text(),
        action == MenuAction::OrderingInfo ==> pages_text(final(pages).pages@) == ordering_text(),
        action == MenuAction::Bbs ==> pages_text(final(pages).pages@) == bbs_text(),
        !(action == MenuAction::Story || action == MenuAction::Instructions || action == MenuAction::OrderingInfo
            || action == MenuAction::Bbs) ==> final(pages).pages@ == old(pages).pages@ && final(pages).index == old(pages).index,
{
    match action {
        MenuAction::Begin => Some(GameState::Playing),
        MenuAction::Controls => Some(GameState::Controls),
        MenuAction::Episodes => Some(GameState::Episodes),
        MenuAction::Story => {
            pages.set(story());
            Some(GameState::TextPages)
        },
        MenuAction::Instructions => {
            pages.set(instructions());
            Some(GameState::TextPages)
        },
        MenuAction::OrderingInfo => {
            pages.set(ordering());
            Some(GameState::TextPages)
        },
        MenuAction::Bbs => {
            pages.set(bbs());
            Some(GameState::TextPages)
        },
        MenuAction::HighScores => Some(GameState::HighScores),
        MenuAction::Credits => Some(GameState::Credits),
        MenuAction::Title => Some(GameState::Title),
        MenuAction::Quit => None,
    }
}

/// The three episodes, by the names the game gives them.
pub open spec fn episode_titles() -> Seq<Seq<char>> {
    seq![" 1) Forbidden Planet"@, " 2) Mad Scientist"@, " 3) Secret Sanctum"@]
}

/// The episode chooser: each title on its own row from row 7, the chosen
/// one marked with `>`.
pub fn episode_frame(selected: u8) -> (f: TextFrame)
    ensures
        f.top == 4 && f.height == 9 && f.width == 26,
        f.title@ == "SELECT EPISODE"@ && f.bottom@ == "ESC) Back"@,
        f.lines_spec() == Seq::new(3, |i: int| (frame_left(26) + 1, 7 + i,
            (if selected == i + 1 { ">"@ } else { " "@ }) + episode_titles()[i])),
{
    let titles: [&'static str; 3] = [" 1) Forbidden Planet", " 2) Mad Scientist", " 3) Secret Sanctum"];
    let mut frame = TextFrame::new(4, 9, 26, "SELECT EPISODE", "ESC) Back");
    let ghost want = Seq::new(3, |i: int| (frame_left(26) + 1, 7 + i,
        (if selected == i + 1 { ">"@ } else { " "@ }) + episode_titles()[i]));
    let mut i: usize = 0;
    while i < 3
        invariant
            i <= 3,
            titles@ == seq![" 1) Forbidden Planet", " 2) Mad Scientist", " 3) Secret Sanctum"],
            frame.top == 4 && frame.height == 9 && frame.width == 26,
            frame.title@ == "SELECT EPISODE"@ && frame.bottom@ == "ESC) Back"@,
            want == Seq::new(3, |i: int| (frame_left(26) + 1, 7 + i,
                (if selected == i + 1 { ">"@ } else { " "@ }) + episode_titles()[i])),
            frame.lines_spec() == want.subrange(0, i as int),
        decreases 3 - i,
    {
        let marker = if selected as usize == i + 1 { ">" } else { " " };
        let mut text = String::from_str(marker);
        text.append(titles[i]);
        frame = frame.text(7 + i as i32, text.as_str());
        proof {
            assert(want.subrange(0, i + 1) =~= want.subrange(0, i as int).push(want[i as int]));
        }
        i = i + 1;
    }
    proof {
        assert(want.subrange(0, 3) =~= want);
    }
    frame
}

/// What a key on the episode chooser does.
#[derive(Clone, Copy, PartialEq, Eq, Debug, Structural)]
pub enum EpisodeKey {
    /// Choose this episode, then back to the menu.
    Pick(u8),
    /// Back to the menu.
    Back,
    Nothing,
}

/// 1 to 3 choose an episode; Escape or T goes back.
pub fn episodes_input(keys: &Vec<Key>) -> (r: EpisodeKey)
    ensures
        r == (if keys@.contains(Key::Digit1) { EpisodeKey::Pick(1) } else if keys@.contains(Key::Digit2) {
            EpisodeKey::Pick(2)
        } else if keys@.contains(Key::Digit3) {
            EpisodeKey::Pick(3)
        } else if keys@.contains(Key::Escape) || keys@.contains(Key::KeyT) {
            EpisodeKey::Back
        } else {
            EpisodeKey::Nothing
        }),
{
    if pressed(keys, Key::Digit1) {
        EpisodeKey::Pick(1)
    } else if pressed(keys, Key::Digit2) {
        EpisodeKey::Pick(2)
    } else if pressed(keys, Key::Digit3) {
        EpisodeKey::Pick(3)
    } else if pressed(keys, Key::Escape) || pressed(keys, Key::KeyT) {
        EpisodeKey::Back
    } else {
        EpisodeKey::Nothing
    }
}

} // verus!
