use vstd::prelude::*;
use vstd::string::{StrSliceExecFns, StringExecFns};

use crate::sidebar::{
    first_hit, lemma_first_hit_is_first, lemma_first_hit_monotone, lemma_first_hit_none,
    none_hit_below,
};

verus! {

/// What a click on the multiplayer setup screen asks for.
#[derive(Clone, Copy, Debug, PartialEq, Eq, Structural)]
pub enum MultiplayerAction {
    NoAction,
    Host,
    Join,
    Back,
    CopyCode,
    PasteCode,
}

/// The step of the multiplayer setup.
#[derive(Clone, Debug, PartialEq, Eq)]
pub enum MultiplayerState {
    ModeSelect,
    /// Hosting, showing this code to share.
    HostWaiting(String),
    /// Joining, with the code typed so far.
    ClientInput(String),
    Connecting,
}

/// A setup step seen from outside.
pub enum MultiplayerStateView {
    ModeSelect,
    HostWaiting(Seq<char>),
    ClientInput(Seq<char>),
    Connecting,
}

impl View for MultiplayerState {
    type V = MultiplayerStateView;

    open spec fn view(&self) -> MultiplayerStateView {
        match self {
            MultiplayerState::ModeSelect => MultiplayerStateView::ModeSelect,
            MultiplayerState::HostWaiting(code) => MultiplayerStateView::HostWaiting(code@),
            MultiplayerState::ClientInput(text) => MultiplayerStateView::ClientInput(text@),
            MultiplayerState::Connecting => MultiplayerStateView::Connecting,
        }
    }
}

/// A labelled button of the setup screen and whether the mouse is over it.
pub struct Button {
    text: String,
    action: MultiplayerAction,
    hovered: bool,
}

/// A button seen from outside.
pub struct ButtonView {
    pub text: Seq<char>,
    pub action: MultiplayerAction,
    pub hovered: bool,
}

impl View for Button {
    type V = ButtonView;

    closed spec fn view(&self) -> ButtonView {
        ButtonView { text: self.text@, action: self.action, hovered: self.hovered }
    }
}

/// The box the joining player types the host code into.
pub struct InputBox {
    text: String,
    active: bool,
}

/// An input box seen from outside.
pub struct InputBoxView {
    pub text: Seq<char>,
    pub active: bool,
}

impl View for InputBox {
    type V = InputBoxView;

    closed spec fn view(&self) -> InputBoxView {
        InputBoxView { text: self.text@, active: self.active }
    }
}

/// Which buttons a click or the pointer is over: one flag per mode button,
/// and one each for the copy, paste and connect buttons.
pub struct MultiplayerHits {
    pub buttons: Vec<bool>,
    pub copy: bool,
    pub paste: bool,
    pub connect: bool,
}

/// The multiplayer setup screen.
pub struct MultiplayerMenu {
    state: MultiplayerState,
    buttons: Vec<Button>,
    input_box: Option<InputBox>,
    copy_button: Option<Button>,
    paste_button: Option<Button>,
    connect_button: Option<Button>,
    error_message: Option<String>,
}

/// The setup screen seen from outside.
pub struct MultiplayerView {
    pub state: MultiplayerStateView,
    pub buttons: Seq<ButtonView>,
    pub input_box: Option<InputBoxView>,
    pub copy_button: Option<ButtonView>,
    pub paste_button: Option<ButtonView>,
    pub connect_button: Option<ButtonView>,
    pub error_message: Option<Seq<char>>,
}

pub open spec fn button_views(buttons: Seq<Button>) -> Seq<ButtonView> {
    buttons.map_values(|b: Button| b@)
}

pub open spec fn opt_button_view(b: Option<Button>) -> Option<ButtonView> {
    match b {
        Some(b) => Some(b@),
        None => None,
    }
}

pub open spec fn opt_string_view(s: Option<String>) -> Option<Seq<char>> {
    match s {
        Some(s) => Some(s@),
        None => None,
    }
}

impl View for MultiplayerMenu {
    type V = MultiplayerView;

    closed spec fn view(&self) -> MultiplayerView {
        MultiplayerView {
            state: self.state@,
            buttons: button_views(self.buttons@),
            input_box: match self.input_box {
                Some(b) => Some(b@),
                None => None,
            },
            copy_button: opt_button_view(self.copy_button),
            paste_button: opt_button_view(self.paste_button),
            connect_button: opt_button_view(self.connect_button),
            error_message: opt_string_view(self.error_message),
        }
    }
}

/// A button the pointer is not over.
pub open spec fn idle_button(text: Seq<char>, action: MultiplayerAction) -> ButtonView {
    ButtonView { text, action, hovered: false }
}

/// The mode buttons: host, join, back.
pub open spec fn mode_buttons() -> Seq<ButtonView> {
    seq![
        idle_button("Host Game"@, MultiplayerAction::Host),
        idle_button("Join Game"@, MultiplayerAction::Join),
        idle_button("Back"@, MultiplayerAction::Back),
    ]
}

/// The screen after switching to step `state`: joining brings an empty,
/// active input box with paste and connect buttons; hosting brings a copy
/// button; any other step shows none of them. The error is cleared and the
/// mode buttons stay.
pub open spec fn with_state(v: MultiplayerView, state: MultiplayerStateView) -> MultiplayerView {
    match state {
        MultiplayerStateView::ClientInput(_) => MultiplayerView {
            state,
            input_box: Some(InputBoxView { text: Seq::empty(), active: true }),
            paste_button: Some(idle_button("Paste"@, MultiplayerAction::PasteCode)),
            connect_button: Some(idle_button("Connect"@, MultiplayerAction::Join)),
            copy_button: None,
            error_message: None,
            ..v
        },
        MultiplayerStateView::HostWaiting(_) => MultiplayerView {
            state,
            copy_button: Some(idle_button("Copy Code"@, MultiplayerAction::CopyCode)),
            input_box: None,
            paste_button: None,
            connect_button: None,
            error_message: None,
            ..v
        },
        _ => MultiplayerView {
            state,
            input_box: None,
            copy_button: None,
            paste_button: None,
            connect_button: None,
            error_message: None,
            ..v
        },
    }
}

/// The screen after the joining player's code becomes `text`: the input box,
/// when there is one, shows it too.
pub open spec fn with_input(v: MultiplayerView, text: Seq<char>) -> MultiplayerView {
    MultiplayerView {
        state: MultiplayerStateView::ClientInput(text),
        input_box: match v.input_box {
            Some(b) => Some(InputBoxView { text, ..b }),
            None => None,
        },
        ..v
    }
}

/// Typing `typed`: appended to the code while joining, ignored otherwise.
pub open spec fn after_typing(v: MultiplayerView, typed: Seq<char>) -> MultiplayerView {
    match v.state {
        MultiplayerStateView::ClientInput(text) => with_input(v, text + typed),
        _ => v,
    }
}

/// Backspace: drops the last character of the code while joining (nothing
/// when the code is empty), ignored otherwise.
pub open spec fn after_backspace(v: MultiplayerView) -> MultiplayerView {
    match v.state {
        MultiplayerStateView::ClientInput(text) => with_input(
            v,
            if text.len() > 0 {
                text.drop_last()
            } else {
                text
            },
        ),
        _ => v,
    }
}

/// Setting the code from outside (as from the clipboard) while joining;
/// ignored otherwise.
pub open spec fn after_set_input(v: MultiplayerView, text: Seq<char>) -> MultiplayerView {
    match v.state {
        MultiplayerStateView::ClientInput(_) => with_input(v, text),
        _ => v,
    }
}

/// What a click asks for on each step: a mode button's own action while
/// choosing a mode; copy while hosting; paste, else connect (a join) while
/// joining; nothing otherwise or when no button is hit.
pub open spec fn clicked_action(v: MultiplayerView, hits: MultiplayerHits) -> MultiplayerAction {
    match v.state {
        MultiplayerStateView::ModeSelect => match first_hit(hits.buttons@, v.buttons.len() as int) {
            Some(i) => v.buttons[i].action,
            None => MultiplayerAction::NoAction,
        },
        MultiplayerStateView::HostWaiting(_) => if v.copy_button is Some && hits.copy {
            MultiplayerAction::CopyCode
        } else {
            MultiplayerAction::NoAction
        },
        MultiplayerStateView::ClientInput(_) => if v.paste_button is Some && hits.paste {
            MultiplayerAction::PasteCode
        } else if v.connect_button is Some && hits.connect {
            MultiplayerAction::Join
        } else {
            MultiplayerAction::NoAction
        },
        MultiplayerStateView::Connecting => MultiplayerAction::NoAction,
    }
}

pub open spec fn hover(b: Option<ButtonView>, hit: bool) -> Option<ButtonView> {
    match b {
        Some(b) => Some(ButtonView { hovered: hit, ..b }),
        None => None,
    }
}

/// Marks exactly the buttons under the pointer as hovered.
pub open spec fn hovered_by(v: MultiplayerView, hits: MultiplayerHits) -> MultiplayerView {
    MultiplayerView {
        buttons: Seq::new(
            v.buttons.len(),
            |i: int|
                ButtonView { hovered: i < hits.buttons@.len() && hits.buttons@[i], ..v.buttons[i] },
        ),
        copy_button: hover(v.copy_button, hits.copy),
        paste_button: hover(v.paste_button, hits.paste),
        connect_button: hover(v.connect_button, hits.connect),
        ..v
    }
}

impl Button {
    pub fn new(text: String, action: MultiplayerAction) -> (b: Button)
        ensures
            b@ == idle_button(text@, action),
    {
        Button { text, action, hovered: false }
    }

    pub fn text(&self) -> (t: &String)
        ensures
            t@ == self@.text,
    {
        &self.text
    }

    pub fn action(&self) -> (a: MultiplayerAction)
        ensures
            a == self@.action,
    {
        self.action
    }

    pub fn hovered(&self) -> (h: bool)
        ensures
            h == self@.hovered,
    {
        self.hovered
    }

    fn with_hover(&self, hovered: bool) -> (b: Button)
        ensures
            b@ == (ButtonView { hovered, ..self@ }),
    {
        Button { text: self.text.clone(), action: self.action, hovered }
    }
}

fn labelled(text: &str, action: MultiplayerAction) -> (b: Button)
    ensures
        b@ == idle_button(text@, action),
{
    Button::new(String::from_str(text), action)
}

fn hover_opt(b: &Option<Button>, hit: bool) -> (r: Option<Button>)
    ensures
        opt_button_view(r) == hover(opt_button_view(*b), hit),
{
    match b {
        Some(b) => Some(b.with_hover(hit)),
        None => None,
    }
}

impl InputBox {
    /// An empty, active input box.
    pub fn new() -> (b: InputBox)
        ensures
            b@ == (InputBoxView { text: Seq::empty(), active: true }),
    {
        InputBox { text: String::new(), active: true }
    }

    pub fn text(&self) -> (t: &String)
        ensures
            t@ == self@.text,
    {
        &self.text
    }

    pub fn active(&self) -> (a: bool)
        ensures
            a == self@.active,
    {
        self.active
    }
}

impl MultiplayerMenu {
    /// The screen on its mode step, with the host, join and back buttons.
    pub fn new() -> (m: MultiplayerMenu)
        ensures
            m@ == (MultiplayerView {
                state: MultiplayerStateView::ModeSelect,
                buttons: mode_buttons(),
                input_box: None,
                copy_button: None,
                paste_button: None,
                connect_button: None,
                error_message: None,
            }),
    {
        let buttons = vec![
            labelled("Host Game", MultiplayerAction::Host),
            labelled("Join Game", MultiplayerAction::Join),
            labelled("Back", MultiplayerAction::Back),
        ];
        assert(button_views(buttons@) =~= mode_buttons());
        MultiplayerMenu {
            state: MultiplayerState::ModeSelect,
            buttons,
            input_box: None,
            copy_button: None,
            paste_button: None,
            connect_button: None,
            error_message: None,
        }
    }

    /// Marks exactly the buttons under the pointer as hovered.
    pub fn update(&mut self, hits: &MultiplayerHits)
        ensures
            final(self)@ == hovered_by(old(self)@, *hits),
    {
        let mut updated: Vec<Button> = Vec::new();
        let mut i: usize = 0;
        while i < self.buttons.len()
            invariant
                i <= self.buttons@.len(),
                self@ == old(self)@,
                updated@.len() == i,
                forall|k: int|
                    0 <= k < i ==> #[trigger] updated@[k]@ == hovered_by(old(self)@, *hits).buttons[k],
            decreases self.buttons@.len() - i,
        {
            let hovered = i < hits.buttons.len() && hits.buttons[i];
            updated.push(self.buttons[i].with_hover(hovered));
            i = i + 1;
        }
        self.buttons = updated;
        self.copy_button = hover_opt(&self.copy_button, hits.copy);
        self.paste_button = hover_opt(&self.paste_button, hits.paste);
        self.connect_button = hover_opt(&self.connect_button, hits.connect);
        assert(self@.buttons =~= hovered_by(old(self)@, *hits).buttons);
    }

    /// What a click asks for; see `clicked_action`.
    pub fn handle_click(&self, hits: &MultiplayerHits) -> (action: MultiplayerAction)
        ensures
            action == clicked_action(self@, *hits),
    {
        match &self.state {
            MultiplayerState::ModeSelect => {
                let mut i: usize = 0;
                while i < self.buttons.len()
                    invariant
                        i <= self.buttons@.len(),
                        self.state is ModeSelect,
                        first_hit(hits.buttons@, i as int) is None,
                    decreases self.buttons@.len() - i,
                {
                    if i < hits.buttons.len() && hits.buttons[i] {
                        proof {
                            assert(first_hit(hits.buttons@, i as int + 1) == Some(i as int));
                            lemma_first_hit_monotone(
                                hits.buttons@,
                                i as int + 1,
                                self.buttons@.len() as int,
                            );
                        }
                        return self.buttons[i].action;
                    }
                    i = i + 1;
                }
            },
            MultiplayerState::HostWaiting(_) => {
                if self.copy_button.is_some() && hits.copy {
                    return MultiplayerAction::CopyCode;
                }
            },
            MultiplayerState::ClientInput(_) => {
                if self.paste_button.is_some() && hits.paste {
                    return MultiplayerAction::PasteCode;
                }
                if self.connect_button.is_some() && hits.connect {
                    return MultiplayerAction::Join;
                }
            },
            _ => {},
        }
        MultiplayerAction::NoAction
    }

    /// Makes `text` the code typed so far, mirrored in the input box.
    fn store_input(&mut self, text: String)
        requires
            old(self)@.state is ClientInput,
        ensures
            final(self)@ == with_input(old(self)@, text@),
    {
        let shown = text.clone();
        self.state = MultiplayerState::ClientInput(text);
        match &self.input_box {
            Some(b) => {
                self.input_box = Some(InputBox { text: shown, active: b.active });
            },
            None => {},
        }
    }

    /// Appends typed text to the code while joining; see `after_typing`.
    pub fn handle_text_input(&mut self, text: &str)
        ensures
            final(self)@ == after_typing(old(self)@, text@),
    {
        match &self.state {
            MultiplayerState::ClientInput(input) => {
                let mut updated = input.clone();
                updated.append(text);
                self.store_input(updated);
            },
            _ => {},
        }
    }

    /// Removes the last character of the code while joining; see
    /// `after_backspace`.
    pub fn handle_backspace(&mut self)
        ensures
            final(self)@ == after_backspace(old(self)@),
    {
        match &self.state {
            MultiplayerState::ClientInput(input) => {
                let n = input.as_str().unicode_len();
                let updated = if n > 0 {
                    String::from_str(input.as_str().substring_char(0, n - 1))
                } else {
                    input.clone()
                };
                proof {
                    if n > 0 {
                        assert(updated@ =~= input@.drop_last());
                    }
                }
                self.store_input(updated);
            },
            _ => {},
        }
    }

    /// Moves to step `state`; see `with_state`.
    pub fn set_state(&mut self, state: MultiplayerState)
        ensures
            final(self)@ == with_state(old(self)@, state@),
    {
        match &state {
            MultiplayerState::ClientInput(_) => {
                self.input_box = Some(InputBox::new());
                self.paste_button = Some(labelled("Paste", MultiplayerAction::PasteCode));
                self.connect_button = Some(labelled("Connect", MultiplayerAction::Join));
                self.copy_button = None;
                self.error_message = None;
            },
            MultiplayerState::HostWaiting(_) => {
                self.copy_button = Some(labelled("Copy Code", MultiplayerAction::CopyCode));
                self.input_box = None;
                self.paste_button = None;
                self.connect_button = None;
                self.error_message = None;
            },
            _ => {
                self.input_box = None;
                self.copy_button = None;
                self.paste_button = None;
                self.connect_button = None;
                self.error_message = None;
            },
        }
        self.state = state;
    }

    pub fn get_state(&self) -> (s: &MultiplayerState)
        ensures
            s@ == self@.state,
    {
        &self.state
    }

    /// The code typed so far, while joining.
    pub fn get_input_text(&self) -> (text: Option<String>)
        ensures
            (match self@.state {
                MultiplayerStateView::ClientInput(t) => text matches Some(s) && s@ == t,
                _ => text is None,
            }),
    {
        match &self.state {
            MultiplayerState::ClientInput(text) => Some(text.clone()),
            _ => None,
        }
    }

    /// The code to share, while hosting.
    pub fn get_host_code(&self) -> (code: Option<String>)
        ensures
            (match self@.state {
                MultiplayerStateView::HostWaiting(c) => code matches Some(s) && s@ == c,
                _ => code is None,
            }),
    {
        match &self.state {
            MultiplayerState::HostWaiting(code) => Some(code.clone()),
            _ => None,
        }
    }

    /// Replaces the code while joining; see `after_set_input`.
    pub fn set_input_text(&mut self, text: String)
        ensures
            final(self)@ == after_set_input(old(self)@, text@),
    {
        match &self.state {
            MultiplayerState::ClientInput(_) => {
                self.store_input(text);
            },
            _ => {},
        }
    }

    pub fn set_error(&mut self, error: String)
        ensures
            final(self)@ == (MultiplayerView { error_message: Some(error@), ..old(self)@ }),
    {
        self.error_message = Some(error);
    }

    pub fn clear_error(&mut self)
        ensures
            final(self)@ == (MultiplayerView { error_message: None, ..old(self)@ }),
    {
        self.error_message = None;
    }

    pub fn buttons(&self) -> (b: &Vec<Button>)
        ensures
            button_views(b@) == self@.buttons,
    {
        &self.buttons
    }

    pub fn input_box(&self) -> (b: &Option<InputBox>)
        ensures
            (match *b {
                Some(x) => self@.input_box == Some(x@),
                None => self@.input_box is None,
            }),
    {
        &self.input_box
    }

    pub fn copy_button(&self) -> (b: &Option<Button>)
        ensures
            opt_button_view(*b) == self@.copy_button,
    {
        &self.copy_button
    }

    pub fn paste_button(&self) -> (b: &Option<Button>)
        ensures
            opt_button_view(*b) == self@.paste_button,
    {
        &self.paste_button
    }

    pub fn connect_button(&self) -> (b: &Option<Button>)
        ensures
            opt_button_view(*b) == self@.connect_button,
    {
        &self.connect_button
    }

    pub fn error_message(&self) -> (e: &Option<String>)
        ensures
            opt_string_view(*e) == self@.error_message,
    {
        &self.error_message
    }
}

/// While joining with the input box in step with the code, typing one
/// character and then pressing backspace leaves the screen as it was.
pub proof fn lemma_backspace_undoes_typing(v: MultiplayerView, c: char)
    requires
        v.state is ClientInput,
        v.input_box matches Some(b) ==> v.state == MultiplayerStateView::ClientInput(b.text),
    ensures
        after_backspace(after_typing(v, seq![c])) == v,
{
    if let MultiplayerStateView::ClientInput(t) = v.state {
        assert((t + seq![c]).drop_last() =~= t);
    }
}

/// After typing, pasting or deleting while joining, the input box (if shown)
/// shows exactly the code, and a code set from outside reads back unchanged.
pub proof fn lemma_input_box_follows_code(v: MultiplayerView, typed: Seq<char>, text: Seq<char>)
    requires
        v.state is ClientInput,
    ensures
        ({
            let a = after_typing(v, typed);
            let b = after_backspace(v);
            let c = after_set_input(v, text);
            &&& a.input_box matches Some(ib) ==> a.state == MultiplayerStateView::ClientInput(
                ib.text,
            )
            &&& b.input_box matches Some(ib) ==> b.state == MultiplayerStateView::ClientInput(
                ib.text,
            )
            &&& c.input_box matches Some(ib) ==> ib.text == text
            &&& c.state == MultiplayerStateView::ClientInput(text)
        }),
{
}

/// Switching to hosting with a code makes that code the one to share;
/// switching to joining starts from an empty code box; every switch clears
/// the error shown.
pub proof fn lemma_state_switch(v: MultiplayerView, code: Seq<char>)
    ensures
        with_state(v, MultiplayerStateView::HostWaiting(code)).state
            == MultiplayerStateView::HostWaiting(code),
        with_state(v, MultiplayerStateView::ClientInput(code)).input_box == Some(
            InputBoxView { text: Seq::<char>::empty(), active: true },
        ),
        with_state(v, MultiplayerStateView::HostWaiting(code)).error_message is None,
        with_state(v, MultiplayerStateView::ClientInput(code)).error_message is None,
        with_state(v, MultiplayerStateView::ModeSelect).error_message is None,
        with_state(v, MultiplayerStateView::Connecting).error_message is None,
{
}

/// After an update, exactly the buttons under the pointer are highlighted,
/// whatever was highlighted before; labels, actions and everything else on
/// the screen stay.
pub proof fn lemma_hover_follows_pointer(v: MultiplayerView, hits: MultiplayerHits)
    ensures
        ({
            let w = hovered_by(v, hits);
            &&& w.buttons.len() == v.buttons.len()
            &&& forall|i: int|
                0 <= i < v.buttons.len() ==> {
                    &&& (#[trigger] w.buttons[i]).hovered == (i < hits.buttons@.len()
                        && hits.buttons@[i])
                    &&& w.buttons[i].text == v.buttons[i].text
                    &&& w.buttons[i].action == v.buttons[i].action
                }
            &&& v.copy_button matches Some(b) ==> w.copy_button == Some(
                ButtonView { hovered: hits.copy, ..b },
            )
            &&& v.paste_button matches Some(b) ==> w.paste_button == Some(
                ButtonView { hovered: hits.paste, ..b },
            )
            &&& v.connect_button matches Some(b) ==> w.connect_button == Some(
                ButtonView { hovered: hits.connect, ..b },
            )
            &&& v.copy_button is None ==> w.copy_button is None
            &&& v.paste_button is None ==> w.paste_button is None
            &&& v.connect_button is None ==> w.connect_button is None
            &&& w.state == v.state
            &&& w.input_box == v.input_box
            &&& w.error_message == v.error_message
        }),
{
}

/// While choosing a mode, a click gives the action of the first mode button
/// under the pointer, or no action. While hosting, only the copy button
/// answers (with `CopyCode`); while joining, the paste button (`PasteCode`)
/// wins over the connect button (`Join`); while connecting nothing answers.
pub proof fn lemma_click_actions(v: MultiplayerView, hits: MultiplayerHits, j: int)
    ensures
        (v.state is ModeSelect && 0 <= j < v.buttons.len() && j < hits.buttons@.len()
            && hits.buttons@[j] && none_hit_below(hits.buttons@, j)) ==> clicked_action(v, hits)
            == v.buttons[j].action,
        (v.state is ModeSelect && none_hit_below(hits.buttons@, v.buttons.len() as int))
            ==> clicked_action(v, hits) == MultiplayerAction::NoAction,
        v.state is HostWaiting ==> clicked_action(v, hits) == (if v.copy_button is Some
            && hits.copy {
            MultiplayerAction::CopyCode
        } else {
            MultiplayerAction::NoAction
        }),
        (v.state is ClientInput && v.paste_button is Some && hits.paste) ==> clicked_action(
            v,
            hits,
        ) == MultiplayerAction::PasteCode,
        (v.state is ClientInput && !(v.paste_button is Some && hits.paste)
            && v.connect_button is Some && hits.connect) ==> clicked_action(v, hits)
            == MultiplayerAction::Join,
        v.state is Connecting ==> clicked_action(v, hits) == MultiplayerAction::NoAction,
{
    if v.state is ModeSelect && 0 <= j < v.buttons.len() && j < hits.buttons@.len()
        && hits.buttons@[j] && none_hit_below(hits.buttons@, j) {
        lemma_first_hit_is_first(hits.buttons@, j, v.buttons.len() as int);
    }
    if v.state is ModeSelect && none_hit_below(hits.buttons@, v.buttons.len() as int) {
        lemma_first_hit_none(hits.buttons@, v.buttons.len() as int);
    }
}

/// While joining, typed text is added at the end of the code, typing in two
/// pieces is the same as typing them together, and backspace removes exactly
/// the last character; on any other step typing and backspace change nothing.
pub proof fn lemma_typing_edits_the_end(v: MultiplayerView, a: Seq<char>, b: Seq<char>)
    ensures
        v.state matches MultiplayerStateView::ClientInput(text) ==> after_typing(v, a).state
            == MultiplayerStateView::ClientInput(text + a),
        v.state matches MultiplayerStateView::ClientInput(text) ==> (text.len() > 0
            ==> after_backspace(v).state == MultiplayerStateView::ClientInput(
            text.subrange(0, text.len() - 1),
        )),
        after_typing(after_typing(v, a), b) == after_typing(v, a + b),
        !(v.state is ClientInput) ==> after_typing(v, a) == v && after_backspace(v) == v,
{
    if let MultiplayerStateView::ClientInput(text) = v.state {
        assert(text + a + b =~= text + (a + b));
        assert(text.drop_last() =~= text.subrange(0, text.len() - 1));
    }
}

} // verus!
