use vstd::prelude::*;

verus! {

/// The kinds of buttons that the toolbar draws, each with its own glyph.
#[derive(Clone, Copy, Debug, PartialEq, Eq, Structural)]
pub enum ButtonKind {
    Accept,
    Cancel,
    Apply,
    Reset,
    Open,
    Save,
    SaveAs,
    Close,
    Delete,
    Play,
    Pause,
    Stop,
    Record,
    Next,
    Previous,
    FullScreen,
    Random,
    Edit,
    Favorite,
    Unfavorite,
    Mute,
    Unmute,
    Lock,
    Unlock,
    Refresh,
    New,
    Copy,
    Paste,
    Cut,
    No,
}

/// The glyph that stands for a kind of button.
pub open spec fn symbol_of(kind: ButtonKind) -> Seq<char> {
    match kind {
        ButtonKind::Accept => "\u{2714}"@,
        ButtonKind::Cancel => "\u{1F6AB}"@,
        ButtonKind::Apply => "\u{2714}"@,
        ButtonKind::Reset => "\u{1F504}"@,
        ButtonKind::Open => "\u{1F5C1}"@,
        ButtonKind::Save => "\u{1F4BE}"@,
        ButtonKind::SaveAs => "\u{1F4BE}"@,
        ButtonKind::Close => "\u{1F5D9}"@,
        ButtonKind::Delete => "\u{1F5D1}"@,
        ButtonKind::Play => "\u{25B6}"@,
        ButtonKind::Pause => "\u{23F8}"@,
        ButtonKind::Stop => "\u{23F9}"@,
        ButtonKind::Record => "\u{23FA}"@,
        ButtonKind::Next => "\u{23ED}"@,
        ButtonKind::Previous => "\u{23EE}"@,
        ButtonKind::FullScreen => "\u{26F6}"@,
        ButtonKind::Random => "\u{1F3B2}"@,
        ButtonKind::Edit => "\u{270F}"@,
        ButtonKind::Favorite => "\u{2605}"@,
        ButtonKind::Unfavorite => "\u{2606}"@,
        ButtonKind::Mute => "\u{1F507}"@,
        ButtonKind::Unmute => "\u{1F50A}"@,
        ButtonKind::Lock => "\u{1F512}"@,
        ButtonKind::Unlock => "\u{1F513}"@,
        ButtonKind::Refresh => "\u{1F503}"@,
        ButtonKind::New => "\u{1F5CB}"@,
        ButtonKind::Copy => "\u{1F5D0}"@,
        ButtonKind::Paste => "\u{1F4CB}"@,
        ButtonKind::Cut => "\u{2702}"@,
        ButtonKind::No => "\u{2718}"@,
    }
}

/// The hover text of a button that does `desc`.
pub open spec fn popup_text(kind: ButtonKind, desc: Seq<char>) -> Seq<char> {
    "clickk '"@ + symbol_of(kind) + "' to "@ + desc
}

impl ButtonKind {
    /// The glyph drawn on the button.
    pub fn symbol(self) -> (r: &'static str)
        ensures
            r@ == symbol_of(self),
    {
        match self {
            ButtonKind::Accept => "\u{2714}",
            ButtonKind::Cancel => "\u{1F6AB}",
            ButtonKind::Apply => "\u{2714}",
            ButtonKind::Reset => "\u{1F504}",
            ButtonKind::Open => "\u{1F5C1}",
            ButtonKind::Save => "\u{1F4BE}",
            ButtonKind::SaveAs => "\u{1F4BE}",
            ButtonKind::Close => "\u{1F5D9}",
            ButtonKind::Delete => "\u{1F5D1}",
            ButtonKind::Play => "\u{25B6}",
            ButtonKind::Pause => "\u{23F8}",
            ButtonKind::Stop => "\u{23F9}",
            ButtonKind::Record => "\u{23FA}",
            ButtonKind::Next => "\u{23ED}",
            ButtonKind::Previous => "\u{23EE}",
            ButtonKind::FullScreen => "\u{26F6}",
            ButtonKind::Random => "\u{1F3B2}",
            ButtonKind::Edit => "\u{270F}",
            ButtonKind::Favorite => "\u{2605}",
            ButtonKind::Unfavorite => "\u{2606}",
            ButtonKind::Mute => "\u{1F507}",
            ButtonKind::Unmute => "\u{1F50A}",
            ButtonKind::Lock => "\u{1F512}",
            ButtonKind::Unlock => "\u{1F513}",
            ButtonKind::Refresh => "\u{1F503}",
            ButtonKind::New => "\u{1F5CB}",
            ButtonKind::Copy => "\u{1F5D0}",
            ButtonKind::Paste => "\u{1F4CB}",
            ButtonKind::Cut => "\u{2702}",
            ButtonKind::No => "\u{2718}",
        }
    }

    /// The hover text of the button, naming its glyph and what it does.
    pub fn name_button_popup(self, desc: &str) -> (r: String)
        ensures
            r@ == popup_text(self, desc@),
    {
        let mut s = String::from_str("clickk '");
        s.append(self.symbol());
        s.append("' to ");
        s.append(desc);
        s
    }
}

impl Default for ButtonKind {
    fn default() -> (r: ButtonKind)
        ensures
            r == ButtonKind::Accept,
    {
        ButtonKind::Accept
    }
}

} // verus!
