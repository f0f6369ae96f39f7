use vstd::prelude::*;

use crate::button::ButtonKind;
use crate::images::{dropped_paths, holds_entries, recognized, IVImages, RawImage};

verus! {

/// A command that the toolbar or a shortcut latched for the next frame.
#[derive(Clone, Copy, Debug, PartialEq, Eq, Structural)]
pub enum IVAppEvent {
    Noop,
    Open,
    Save,
    SaveAs,
    Copy,
    Paste,
}

pub open spec fn event_of(kind: ButtonKind) -> IVAppEvent {
    match kind {
        ButtonKind::Open => IVAppEvent::Open,
        ButtonKind::Save => IVAppEvent::Save,
        ButtonKind::SaveAs => IVAppEvent::SaveAs,
        ButtonKind::Copy => IVAppEvent::Copy,
        ButtonKind::Paste => IVAppEvent::Paste,
        _ => IVAppEvent::Noop,
    }
}

impl From<ButtonKind> for IVAppEvent {
    fn from(value: ButtonKind) -> (r: IVAppEvent) {
        match value {
            ButtonKind::Open => IVAppEvent::Open,
            ButtonKind::Save => IVAppEvent::Save,
            ButtonKind::SaveAs => IVAppEvent::SaveAs,
            ButtonKind::Copy => IVAppEvent::Copy,
            ButtonKind::Paste => IVAppEvent::Paste,
            _ => IVAppEvent::Noop,
        }
    }
}

impl vstd::std_specs::convert::FromSpecImpl<ButtonKind> for IVAppEvent {
    open spec fn obeys_from_spec() -> bool {
        true
    }

    open spec fn from_spec(v: ButtonKind) -> IVAppEvent {
        event_of(v)
    }
}

/// What the frame must do for the command drained at its start.
#[derive(Clone, Copy, Debug, PartialEq, Eq, Structural)]
pub enum FrameAction {
    Nothing,
    /// Ask the window for a screenshot of the next rendered frame.
    RequestScreenshot,
    /// Run a paste (see `IVApp::on_paste_event`).
    Paste,
}

/// What the clipboard gave back to a paste in progress.
pub enum PasteEvent {
    /// The paste starts.
    Begin,
    /// The clipboard's image, or `None` where it held none.
    Image(Option<RawImage>),
    /// The clipboard's text was read (or not); it is only reported.
    TextRead,
    /// Clearing the clipboard was attempted.
    Cleared,
}

/// The next clipboard operation of a paste.
#[derive(Clone, Copy, Debug, PartialEq, Eq, Structural)]
pub enum PasteAction {
    ReadImage,
    ReadText,
    Clear,
    Done,
}

/// A file hovering over the window during a drag: its path, or else its
/// media type.
pub struct HoveredFile {
    pub path: Option<String>,
    pub mime: String,
}

/// The application: the registry and view, whether a clipboard is there,
/// the latched command, and whether a screenshot for a copy is awaited.
pub struct IVApp {
    pub images: IVImages,
    pub cb_available: bool,
    pub kind_event: Option<IVAppEvent>,
    pub screenshot_requested: bool,
}

pub open spec fn hover_line(f: HoveredFile) -> Seq<char> {
    match f.path {
        Some(p) => "\n"@ + p@,
        None => if f.mime@.len() > 0 {
            "\n"@ + f.mime@
        } else {
            "\n???"@
        },
    }
}

pub open spec fn hover_text(files: Seq<HoveredFile>) -> Seq<char>
    decreases files.len(),
{
    if files.len() == 0 {
        "Dropping files:\n"@
    } else {
        hover_text(files.drop_last()) + hover_line(files.last())
    }
}

/// The overlay text shown while files hover over the window: a heading and
/// one line per file. `None` when nothing hovers.
pub fn preview_files_being_dropped(files: &Vec<HoveredFile>) -> (r: Option<String>)
    ensures
        files@.len() == 0 ==> r is None,
        files@.len() > 0 ==> r is Some && r->0@ == hover_text(files@),
{
    if files.len() == 0 {
        return None;
    }
    let mut text = String::from_str("Dropping files:\n");
    let mut i: usize = 0;
    while i < files.len()
        invariant
            i <= files.len(),
            text@ == hover_text(files@.subrange(0, i as int)),
        decreases files.len() - i,
    {
        let f = &files[i];
        match &f.path {
            Some(p) => {
                text.append("\n");
                text.append(p.as_str());
            },
            None => if !f.mime.as_str().is_empty() {
                text.append("\n");
                text.append(f.mime.as_str());
            } else {
                text.append("\n???");
            },
        }
        proof {
            let sub = files@.subrange(0, i + 1);
            assert(sub.drop_last() =~= files@.subrange(0, i as int));
            assert(sub.last() == files@[i as int]);
        }
        i = i + 1;
    }
    assert(files@.subrange(0, files.len() as int) =~= files@);
    Some(text)
}

impl IVApp {
    /// An application over the given paths, with or without a clipboard.
    pub fn new(imgfiles: Vec<String>, cb_available: bool) -> (r: IVApp)
        ensures
            r.images.is_fresh(imgfiles@),
            r.cb_available == cb_available,
            r.kind_event is None,
            !r.screenshot_requested,
    {
        IVApp {
            images: IVImages::new(imgfiles),
            cb_available,
            kind_event: None,
            screenshot_requested: false,
        }
    }

    /// Latches the command of the last button (in toolbar order) that
    /// fired this frame, to be run at the start of the next frame. Where
    /// none fired, the latch is left as it is.
    pub fn latch_fired(&mut self, fired: &Vec<ButtonKind>)
        ensures
            fired@.len() > 0 ==> final(self).kind_event == Some(event_of(fired@.last())),
            fired@.len() == 0 ==> final(self).kind_event == old(self).kind_event,
            final(self).images == old(self).images,
            final(self).cb_available == old(self).cb_available,
            final(self).screenshot_requested == old(self).screenshot_requested,
    {
        let n = fired.len();
        if n > 0 {
            self.kind_event = Some(IVAppEvent::from(fired[n - 1]));
        }
    }

    /// The start of a frame. Drains the latched command: a copy asks for a
    /// screenshot unless one is already awaited (then it is dropped); a
    /// paste is run; open, save and save-as do nothing. Then the files
    /// dropped on the window are appended to the registry, each once.
    pub fn update(&mut self, dropped: Vec<Option<String>>) -> (r: FrameAction)
        ensures
            final(self).kind_event is None,
            final(self).cb_available == old(self).cb_available,
            final(self).images.same_view(&old(self).images),
            final(self).images.images_sources@.subrange(
                0,
                old(self).images.images_sources@.len() as int,
            ) == old(self).images.images_sources@,
            holds_entries(
                final(self).images.images_sources@,
                old(self).images.images_sources@.len() as int,
                recognized(dropped_paths(dropped@)),
            ),
            old(self).images.wf() ==> final(self).images.wf(),
            old(self).kind_event == Some(IVAppEvent::Copy) ==> {
                &&& final(self).screenshot_requested
                &&& r == if old(self).screenshot_requested {
                    FrameAction::Nothing
                } else {
                    FrameAction::RequestScreenshot
                }
            },
            old(self).kind_event == Some(IVAppEvent::Paste) ==> r == FrameAction::Paste,
            old(self).kind_event != Some(IVAppEvent::Copy) ==> {
                &&& final(self).screenshot_requested == old(self).screenshot_requested
                &&& old(self).kind_event != Some(IVAppEvent::Paste) ==> r == FrameAction::Nothing
            },
    {
        let ev = self.kind_event;
        self.kind_event = None;
        let action = match ev {
            Some(IVAppEvent::Copy) => {
                if self.screenshot_requested {
                    FrameAction::Nothing
                } else {
                    self.screenshot_requested = true;
                    FrameAction::RequestScreenshot
                }
            },
            Some(IVAppEvent::Paste) => FrameAction::Paste,
            _ => FrameAction::Nothing,
        };
        self.images.extend_from_dropfile(dropped);
        action
    }

    /// One step of a paste: read the image; failing that, read the text;
    /// then clear the clipboard whatever came of it. An image that was read
    /// is appended to the registry. Without a clipboard nothing happens.
    pub fn on_paste_event(&mut self, ev: PasteEvent) -> (r: PasteAction)
        ensures
            final(self).cb_available == old(self).cb_available,
            final(self).kind_event == old(self).kind_event,
            final(self).screenshot_requested == old(self).screenshot_requested,
            match ev {
                PasteEvent::Image(Some(img)) => {
                    &&& final(self).images.pasted_from(&old(self).images, img)
                    &&& r == PasteAction::Clear
                },
                _ => final(self).images == old(self).images,
            },
            ev is Begin ==> r == if old(self).cb_available {
                PasteAction::ReadImage
            } else {
                PasteAction::Done
            },
            ev == PasteEvent::Image(None) ==> r == PasteAction::ReadText,
            ev is TextRead ==> r == PasteAction::Clear,
            ev is Cleared ==> r == PasteAction::Done,
            old(self).images.wf() ==> final(self).images.wf(),
    {
        match ev {
            PasteEvent::Begin => if self.cb_available {
                PasteAction::ReadImage
            } else {
                PasteAction::Done
            },
            PasteEvent::Image(Some(img)) => {
                self.images.extend_from_image_data(img);
                PasteAction::Clear
            },
            PasteEvent::Image(None) => PasteAction::ReadText,
            PasteEvent::TextRead => PasteAction::Clear,
            PasteEvent::Cleared => PasteAction::Done,
        }
    }

    /// After a frame is rendered: whether its screenshot is to be cropped
    /// to the last drawn rectangle and written to the clipboard. An awaited
    /// screenshot that arrived ends the wait.
    pub fn post_rendering(&mut self, screenshot_available: bool) -> (r: bool)
        ensures
            r == (old(self).screenshot_requested && screenshot_available && old(self).cb_available),
            final(self).screenshot_requested == (old(self).screenshot_requested
                && !screenshot_available),
            final(self).images == old(self).images,
            final(self).cb_available == old(self).cb_available,
            final(self).kind_event == old(self).kind_event,
    {
        let copy = self.screenshot_requested && screenshot_available && self.cb_available;
        if screenshot_available {
            self.screenshot_requested = false;
        }
        copy
    }

    /// The window may close at any time.
    pub fn on_close_event(&self) -> (r: bool)
        ensures
            r,
    {
        true
    }

    /// The first frame is laid out once before it is shown.
    pub fn warm_up_enabled(&self) -> (r: bool)
        ensures
            r,
    {
        true
    }
}

} // verus!
