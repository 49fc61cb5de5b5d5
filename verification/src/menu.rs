use vstd::prelude::*;
use vstd::string::StringExecFns;
use vstd::utf8::{decode_utf8, encode_utf8, valid_utf8};

use crate::network::string_from_utf8;
use crate::sidebar::{
    first_hit, lemma_first_hit_is_first, lemma_first_hit_monotone, lemma_first_hit_none,
    none_hit_below,
};

verus! {

/// What a click on the main menu asks for.
#[derive(Clone, Copy, Debug, PartialEq, Eq, Structural)]
pub enum MenuAction {
    NoAction,
    Host,
    Join,
    Back,
    Quit,
    CopyToClipboard,
    PasteFromClipboard,
}

/// Which page the main menu shows.
#[derive(Clone, Debug, PartialEq, Eq)]
pub enum MenuMode {
    Main,
    JoinWaiting,
    /// Waiting for a player to join, showing this host code.
    HostWaiting(String),
}

/// A menu page seen from outside.
pub enum MenuModeView {
    Main,
    JoinWaiting,
    HostWaiting(Seq<char>),
}

/// A labelled menu button and whether the mouse is over it.
pub struct Button {
    text: String,
    action: MenuAction,
    hovered: bool,
}

/// A button seen from outside.
pub struct ButtonView {
    pub text: Seq<char>,
    pub action: MenuAction,
    pub hovered: bool,
}

impl View for Button {
    type V = ButtonView;

    closed spec fn view(&self) -> ButtonView {
        ButtonView { text: self.text@, action: self.action, hovered: self.hovered }
    }
}

/// The views of a row of buttons.
pub open spec fn button_views(buttons: Seq<Button>) -> Seq<ButtonView> {
    buttons.map_values(|b: Button| b@)
}

/// A button that the mouse is not over.
pub open spec fn idle_button(text: Seq<char>, action: MenuAction) -> ButtonView {
    ButtonView { text, action, hovered: false }
}

/// The buttons of the main page.
pub open spec fn main_buttons() -> Seq<ButtonView> {
    seq![
        idle_button("Host Game"@, MenuAction::Host),
        idle_button("Join Game"@, MenuAction::Join),
        idle_button("Quit"@, MenuAction::Quit),
    ]
}

/// The buttons shown while hosting.
pub open spec fn host_waiting_buttons() -> Seq<ButtonView> {
    seq![
        idle_button("Copy to Clipboard"@, MenuAction::CopyToClipboard),
        idle_button("Back"@, MenuAction::Back),
    ]
}

/// The buttons shown while joining.
pub open spec fn join_waiting_buttons() -> Seq<ButtonView> {
    seq![
        idle_button("Paste from Clipboard"@, MenuAction::PasteFromClipboard),
        idle_button("Back"@, MenuAction::Back),
    ]
}

/// The main menu: the page shown and its buttons, top to bottom.
pub struct MenuState {
    mode: MenuMode,
    buttons: Vec<Button>,
}

/// The main menu seen from outside.
pub struct MenuView {
    pub mode: MenuModeView,
    pub buttons: Seq<ButtonView>,
}

impl View for MenuMode {
    type V = MenuModeView;

    open spec fn view(&self) -> MenuModeView {
        match self {
            MenuMode::Main => MenuModeView::Main,
            MenuMode::JoinWaiting => MenuModeView::JoinWaiting,
            MenuMode::HostWaiting(code) => MenuModeView::HostWaiting(code@),
        }
    }
}

impl View for MenuState {
    type V = MenuView;

    closed spec fn view(&self) -> MenuView {
        MenuView { mode: self.mode@, buttons: button_views(self.buttons@) }
    }
}

/// The host code a menu shows, if it is on the hosting page.
pub open spec fn shown_host_code(v: MenuView) -> Option<Seq<char>> {
    match v.mode {
        MenuModeView::HostWaiting(code) => Some(code),
        _ => None,
    }
}

/// What a click does: the action of the first button under the pointer, or
/// no action when it is over none of them.
pub open spec fn clicked_action(buttons: Seq<ButtonView>, hits: Seq<bool>) -> MenuAction {
    match first_hit(hits, buttons.len() as int) {
        Some(i) => buttons[i].action,
        None => MenuAction::NoAction,
    }
}

/// Marks each button as hovered exactly when its flag in `hits` is set.
pub open spec fn hovered_by(buttons: Seq<ButtonView>, hits: Seq<bool>) -> Seq<ButtonView> {
    Seq::new(
        buttons.len(),
        |i: int| ButtonView { hovered: i < hits.len() && hits[i], ..buttons[i] },
    )
}

impl Button {
    pub fn new(text: String, action: MenuAction) -> (b: Button)
        ensures
            b@ == idle_button(text@, action),
    {
        Button { text, action, hovered: false }
    }

    pub fn text(&self) -> (t: &String)
        ensures
            t@ == self@.text,
    {
        &self.text
    }

    pub fn action(&self) -> (a: MenuAction)
        ensures
            a == self@.action,
    {
        self.action
    }

    pub fn hovered(&self) -> (h: bool)
        ensures
            h == self@.hovered,
    {
        self.hovered
    }
}

fn labelled(text: &str, action: MenuAction) -> (b: Button)
    ensures
        b@ == idle_button(text@, action),
{
    Button::new(String::from_str(text), action)
}

impl MenuState {
    /// The menu on its main page.
    pub fn new() -> (m: MenuState)
        ensures
            m@ == (MenuView { mode: MenuModeView::Main, buttons: main_buttons() }),
    {
        MenuState { mode: MenuMode::Main, buttons: Self::create_main_buttons() }
    }

    /// Host, join and quit, top to bottom.
    pub fn create_main_buttons() -> (buttons: Vec<Button>)
        ensures
            button_views(buttons@) == main_buttons(),
    {
        let buttons = vec![
            labelled("Host Game", MenuAction::Host),
            labelled("Join Game", MenuAction::Join),
            labelled("Quit", MenuAction::Quit),
        ];
        assert(button_views(buttons@) =~= main_buttons());
        buttons
    }

    /// Copy the host code, or go back.
    pub fn create_host_waiting_buttons() -> (buttons: Vec<Button>)
        ensures
            button_views(buttons@) == host_waiting_buttons(),
    {
        let buttons = vec![
            labelled("Copy to Clipboard", MenuAction::CopyToClipboard),
            labelled("Back", MenuAction::Back),
        ];
        assert(button_views(buttons@) =~= host_waiting_buttons());
        buttons
    }

    /// Paste a host code, or go back.
    pub fn create_join_waiting_buttons() -> (buttons: Vec<Button>)
        ensures
            button_views(buttons@) == join_waiting_buttons(),
    {
        let buttons = vec![
            labelled("Paste from Clipboard", MenuAction::PasteFromClipboard),
            labelled("Back", MenuAction::Back),
        ];
        assert(button_views(buttons@) =~= join_waiting_buttons());
        buttons
    }

    /// Marks as hovered exactly the buttons under the pointer; `hits[i]`
    /// tells whether button `i` is.
    pub fn update(&mut self, hits: &Vec<bool>)
        ensures
            final(self)@ == (MenuView {
                buttons: hovered_by(old(self)@.buttons, hits@),
                ..old(self)@
            }),
    {
        let mut updated: Vec<Button> = Vec::new();
        let mut i: usize = 0;
        while i < self.buttons.len()
            invariant
                i <= self.buttons@.len(),
                self@ == old(self)@,
                updated@.len() == i,
                forall|k: int|
                    0 <= k < i ==> #[trigger] updated@[k]@ == hovered_by(
                        old(self)@.buttons,
                        hits@,
                    )[k],
            decreases self.buttons@.len() - i,
        {
            let b = &self.buttons[i];
            let hovered = i < hits.len() && hits[i];
            updated.push(Button { text: b.text.clone(), action: b.action, hovered });
            i = i + 1;
        }
        self.buttons = updated;
        assert(self@.buttons =~= hovered_by(old(self)@.buttons, hits@));
    }

    /// The action of the first button under the pointer, or no action;
    /// `hits[i]` tells whether button `i` is under it.
    pub fn handle_click(&self, hits: &Vec<bool>) -> (action: MenuAction)
        ensures
            action == clicked_action(self@.buttons, hits@),
    {
        let mut i: usize = 0;
        while i < self.buttons.len()
            invariant
                i <= self.buttons@.len(),
                first_hit(hits@, i as int) is None,
            decreases self.buttons@.len() - i,
        {
            if i < hits.len() && hits[i] {
                proof {
                    assert(first_hit(hits@, i as int + 1) == Some(i as int));
                    lemma_first_hit_monotone(hits@, i as int + 1, self.buttons@.len() as int);
                }
                return self.buttons[i].action;
            }
            i = i + 1;
        }
        MenuAction::NoAction
    }

    /// Shows the hosting page with `code`.
    pub fn set_host_waiting(&mut self, code: String)
        ensures
            final(self)@ == (MenuView {
                mode: MenuModeView::HostWaiting(code@),
                buttons: host_waiting_buttons(),
            }),
    {
        self.mode = MenuMode::HostWaiting(code);
        self.buttons = Self::create_host_waiting_buttons();
    }

    /// Shows the joining page.
    pub fn set_join_waiting(&mut self)
        ensures
            final(self)@ == (MenuView {
                mode: MenuModeView::JoinWaiting,
                buttons: join_waiting_buttons(),
            }),
    {
        self.mode = MenuMode::JoinWaiting;
        self.buttons = Self::create_join_waiting_buttons();
    }

    /// Goes back to the main page.
    pub fn set_main_mode(&mut self)
        ensures
            final(self)@ == (MenuView { mode: MenuModeView::Main, buttons: main_buttons() }),
    {
        self.mode = MenuMode::Main;
        self.buttons = Self::create_main_buttons();
    }

    /// The host code shown, on the hosting page.
    pub fn get_host_code(&self) -> (code: Option<&String>)
        ensures
            (match code {
                Some(c) => shown_host_code(self@) == Some(c@),
                None => shown_host_code(self@) is None,
            }),
    {
        match &self.mode {
            MenuMode::HostWaiting(code) => Some(code),
            _ => None,
        }
    }

    pub fn mode(&self) -> (m: &MenuMode)
        ensures
            m@ == self@.mode,
    {
        &self.mode
    }

    pub fn buttons(&self) -> (b: &Vec<Button>)
        ensures
            button_views(b@) == self@.buttons,
    {
        &self.buttons
    }
}

/// The code given to `set_host_waiting` is the code the menu then shows; the
/// main and joining pages show none.
pub proof fn lemma_host_code_read_back(code: Seq<char>)
    ensures
        shown_host_code(
            MenuView { mode: MenuModeView::HostWaiting(code), buttons: host_waiting_buttons() },
        ) == Some(code),
        shown_host_code(MenuView { mode: MenuModeView::Main, buttons: main_buttons() }) is None,
        shown_host_code(
            MenuView { mode: MenuModeView::JoinWaiting, buttons: join_waiting_buttons() },
        ) is None,
{
}

/// After an update, a button is highlighted exactly when the pointer is over
/// it, whatever its highlight was before; labels and actions stay. So an
/// update undoes any earlier one.
pub proof fn lemma_hover_follows_pointer(
    buttons: Seq<ButtonView>,
    hits: Seq<bool>,
    earlier: Seq<bool>,
)
    ensures
        hovered_by(buttons, hits).len() == buttons.len(),
        forall|i: int|
            0 <= i < buttons.len() ==> {
                &&& (#[trigger] hovered_by(buttons, hits)[i]).hovered == (i < hits.len() && hits[i])
                &&& hovered_by(buttons, hits)[i].text == buttons[i].text
                &&& hovered_by(buttons, hits)[i].action == buttons[i].action
            },
        hovered_by(hovered_by(buttons, earlier), hits) == hovered_by(buttons, hits),
{
    assert(hovered_by(hovered_by(buttons, earlier), hits) =~= hovered_by(buttons, hits));
}

/// A click gives the action of the first button under the pointer, and no
/// action when the pointer is over none.
pub proof fn lemma_click_takes_first_button(buttons: Seq<ButtonView>, hits: Seq<bool>, j: int)
    ensures
        none_hit_below(hits, buttons.len() as int) ==> clicked_action(buttons, hits)
            == MenuAction::NoAction,
        (0 <= j < buttons.len() && j < hits.len() && hits[j] && none_hit_below(hits, j))
            ==> clicked_action(buttons, hits) == buttons[j].action,
{
    if none_hit_below(hits, buttons.len() as int) {
        lemma_first_hit_none(hits, buttons.len() as int);
    }
    if 0 <= j < buttons.len() && j < hits.len() && hits[j] && none_hit_below(hits, j) {
        lemma_first_hit_is_first(hits, j, buttons.len() as int);
    }
}

/// Bytes per line when a host code is shown.
pub const CODE_LINE_BYTES: usize = 80;

/// The `i`-th run of `CODE_LINE_BYTES` bytes of `bytes` (the last may be shorter).
pub open spec fn code_chunk(bytes: Seq<u8>, i: int) -> Seq<u8> {
    let start = i * 80;
    let end = if start + 80 <= bytes.len() {
        start + 80
    } else {
        bytes.len() as int
    };
    bytes.subrange(start, end)
}

/// The text of a chunk: its characters when it is UTF-8, else nothing.
pub open spec fn chunk_text(chunk: Seq<u8>) -> Seq<char> {
    if valid_utf8(chunk) {
        decode_utf8(chunk)
    } else {
        Seq::empty()
    }
}

/// The texts of the first `k` chunks of `bytes`, one per line.
pub open spec fn code_lines(bytes: Seq<u8>, k: nat) -> Seq<char>
    decreases k,
{
    if k == 0 {
        Seq::empty()
    } else if k == 1 {
        chunk_text(code_chunk(bytes, 0))
    } else {
        code_lines(bytes, (k - 1) as nat) + seq!['\n'] + chunk_text(code_chunk(bytes, k - 1))
    }
}

/// How many chunks `n` bytes make.
pub open spec fn chunk_count(n: nat) -> nat {
    ((n + 79) / 80) as nat
}

/// A code is cut into lines of exactly 80 bytes, the last line holding
/// what is left (between 1 and 80 bytes); the lines, in order, are the
/// code's bytes.
pub proof fn lemma_code_chunks(bytes: Seq<u8>, i: int)
    requires
        0 <= i < chunk_count(bytes.len()),
    ensures
        (i + 1) * 80 <= bytes.len() ==> code_chunk(bytes, i).len() == 80,
        i + 1 == chunk_count(bytes.len()) ==> 0 < code_chunk(bytes, i).len() <= 80
            && i * 80 + code_chunk(bytes, i).len() == bytes.len(),
        forall|k: int|
            0 <= k < code_chunk(bytes, i).len() ==> #[trigger] code_chunk(bytes, i)[k] == bytes[i
                * 80 + k],
{
    assert(i * 80 < bytes.len()) by (nonlinear_arith)
        requires
            0 <= i < (bytes.len() + 79) / 80,
    ;
    if i + 1 == chunk_count(bytes.len()) {
        assert(bytes.len() <= (i + 1) * 80) by (nonlinear_arith)
            requires
                i + 1 == (bytes.len() + 79) / 80,
        ;
    }
}

/// The text shown for a host code on the hosting page: a heading line, then
/// the code's UTF-8 bytes in lines of `CODE_LINE_BYTES` bytes; a line whose
/// bytes are not UTF-8 on their own is shown empty.
pub fn host_code_display(code: &str) -> (shown: String)
    ensures
        shown@ == "Host Code:\n"@ + code_lines(encode_utf8(code@), chunk_count(encode_utf8(code@).len())),
{
    let bytes = code.as_bytes();
    let n = bytes.len();
    let mut shown = String::from_str("Host Code:\n");
    let ghost head = shown@;
    let mut i: usize = 0;
    let ghost mut k: nat = 0;
    while i < n
        invariant
            n == bytes@.len(),
            bytes@ == encode_utf8(code@),
            head == "Host Code:\n"@,
            i == (if k * 80 <= n {
                (k * 80) as int
            } else {
                n as int
            }),
            k == 0 || (k - 1) * 80 < n,
            shown@ == head + code_lines(bytes@, k),
        decreases n - i,
    {
        let end = if n - i >= CODE_LINE_BYTES {
            i + CODE_LINE_BYTES
        } else {
            n
        };
        let mut chunk: Vec<u8> = Vec::new();
        let mut j: usize = i;
        while j < end
            invariant
                i <= j <= end <= n,
                n == bytes@.len(),
                chunk@ == bytes@.subrange(i as int, j as int),
            decreases end - j,
        {
            chunk.push(bytes[j]);
            j = j + 1;
        }
        let ghost c = chunk@;
        assert(c == code_chunk(bytes@, k as int));
        let text = match string_from_utf8(chunk) {
            Some(t) => t,
            None => String::new(),
        };
        assert(text@ == chunk_text(c));
        if i > 0 {
            shown.append("\n");
        }
        shown.append(text.as_str());
        proof {
            reveal_strlit("\n");
            assert(shown@ == head + code_lines(bytes@, k + 1));
            k = k + 1;
        }
        i = end;
    }
    proof {
        assert(k == chunk_count(n as nat)) by (nonlinear_arith)
            requires
                i == (if k * 80 <= n {
                    (k * 80) as int
                } else {
                    n as int
                }),
                i >= n,
                k == 0 || (k - 1) * 80 < n,
        ;
    }
    shown
}

} // verus!
