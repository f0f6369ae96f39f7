use vstd::prelude::*;

use crate::format::{encode_png, format_of_path, guess_format, png_encoding};
use crate::view::{clamp, sat_add, scaled, Rect, Vec2, ZOOM_MAX, ZOOM_MIN, ZOOM_UNIT};

verus! {

/// Where an image's bytes come from.
pub enum ImgSource {
    /// A file on disk, read on first display.
    Path(String),
    /// An encoded image held in memory.
    Buffer(Vec<u8>),
    /// A resource that the toolkit resolves by its identifier.
    Uri(String),
}

/// What is known of a file's bytes; only path entries are ever read.
pub enum Content {
    Unread,
    Read(Vec<u8>),
    Unreadable,
}

/// One viewable image: its format and its source.
pub struct Img {
    pub fmt: image::ImageFormat,
    pub source: ImgSource,
    pub content: Content,
}

/// What the current entry shows this frame.
#[derive(Clone, Copy, Debug, PartialEq, Eq, Structural)]
pub enum Shown {
    /// The registry is empty.
    Nothing,
    /// The file has not been read yet.
    Loading,
    /// The file could not be read; this is kept and never retried.
    Failed,
    /// Bytes or an identifier are there for the toolkit to decode.
    Ready,
}

/// Raw RGBA8 pixels, four bytes per pixel, row after row.
pub struct RawImage {
    pub width: usize,
    pub height: usize,
    pub bytes: Vec<u8>,
}

pub open spec fn shown_of(img: Img) -> Shown {
    match img.source {
        ImgSource::Path(_) => match img.content {
            Content::Unread => Shown::Loading,
            Content::Read(_) => Shown::Ready,
            Content::Unreadable => Shown::Failed,
        },
        _ => Shown::Ready,
    }
}

/// The file that must be read before the entry can be shown, if any.
pub open spec fn read_request(img: Img) -> Option<Seq<char>> {
    match img.source {
        ImgSource::Path(p) => if img.content is Unread {
            Some(p@)
        } else {
            None
        },
        _ => None,
    }
}

/// The entry once the outcome of reading its file is known.
pub open spec fn after_read(img: Img, bytes: Option<Vec<u8>>) -> Img {
    Img {
        content: match bytes {
            Some(b) => Content::Read(b),
            None => Content::Unreadable,
        },
        ..img
    }
}

/// The PNG file that pasting the raw image produces, or `None` where the
/// buffer does not match its dimensions or the encoder fails.
pub open spec fn raw_png(img: RawImage) -> Option<Seq<u8>> {
    if img.width <= u32::MAX && img.height <= u32::MAX && img.bytes@.len() == img.width
        * img.height * 4 {
        png_encoding(img.bytes@, img.width as u32, img.height as u32)
    } else {
        None
    }
}

/// A fresh, unread entry for a file of the given format.
pub open spec fn is_path_entry(img: Img, fmt: image::ImageFormat, path: Seq<char>) -> bool {
    &&& img.fmt == fmt
    &&& img.source is Path
    &&& img.source->Path_0@ == path
    &&& img.content is Unread
}

/// The paths whose extension names a known image format, with that format,
/// in their order.
pub open spec fn recognized(paths: Seq<Seq<char>>) -> Seq<(image::ImageFormat, Seq<char>)>
    decreases paths.len(),
{
    if paths.len() == 0 {
        seq![]
    } else {
        let rest = recognized(paths.drop_last());
        match format_of_path(paths.last()) {
            Some(f) => rest.push((f, paths.last())),
            None => rest,
        }
    }
}

/// The paths that a drop carried, in order, skipping items without one.
pub open spec fn dropped_paths(items: Seq<Option<String>>) -> Seq<Seq<char>>
    decreases items.len(),
{
    if items.len() == 0 {
        seq![]
    } else {
        let rest = dropped_paths(items.drop_last());
        match items.last() {
            Some(p) => rest.push(p@),
            None => rest,
        }
    }
}

pub open spec fn path_views(paths: Seq<String>) -> Seq<Seq<char>> {
    paths.map_values(|p: String| p@)
}

/// From `start` on, `imgs` holds exactly a fresh entry for each of `want`.
pub open spec fn holds_entries(
    imgs: Seq<Img>,
    start: int,
    want: Seq<(image::ImageFormat, Seq<char>)>,
) -> bool {
    &&& imgs.len() == start + want.len()
    &&& forall|i: int|
        0 <= i < want.len() ==> is_path_entry(imgs[start + i], #[trigger] want[i].0, want[i].1)
}

pub open spec fn next_index(idx: int, len: int) -> int {
    if len == 0 {
        idx
    } else if idx < len - 1 {
        idx + 1
    } else {
        len - 1
    }
}

pub open spec fn prev_index(idx: int) -> int {
    if idx > 0 {
        idx - 1
    } else {
        0
    }
}

/// The index after a run of moves: `true` is next, `false` previous.
pub open spec fn navigate(idx: int, len: int, moves: Seq<bool>) -> int
    decreases moves.len(),
{
    if moves.len() == 0 {
        idx
    } else {
        let before = navigate(idx, len, moves.drop_last());
        if moves.last() {
            next_index(before, len)
        } else {
            prev_index(before)
        }
    }
}

/// The zoom step of a gesture whose factor is `delta` thousandths: a tenth
/// of the factor, a negative factor counting as none.
pub open spec fn zoom_step(delta: int) -> int {
    clamp(delta, 0, i64::MAX as int) / 10
}

/// One axis of the zoom after a gesture, kept within the zoom bounds.
pub open spec fn zoomed(z: int, delta: int) -> int {
    if delta > ZOOM_UNIT {
        clamp(z + zoom_step(delta), ZOOM_MIN as int, ZOOM_MAX as int)
    } else if delta < ZOOM_UNIT {
        clamp(z - zoom_step(delta), ZOOM_MIN as int, ZOOM_MAX as int)
    } else {
        z
    }
}

/// A point or pan moved by an optional delta, saturating at the bounds of
/// `i64`.
pub open spec fn pan_after(v: Vec2, d: Option<Vec2>) -> Vec2 {
    match d {
        Some(d) => Vec2 {
            x: sat_add(v.x as int, d.x as int) as i64,
            y: sat_add(v.y as int, d.y as int) as i64,
        },
        None => v,
    }
}

/// The input of one frame that bears on the view.
#[derive(Clone, Copy, Debug, PartialEq, Eq, Structural)]
pub struct ViewInput {
    /// The "previous" chord was pressed.
    pub prev: bool,
    /// The "next" chord was pressed.
    pub next: bool,
    /// The reset key was released.
    pub reset: bool,
    /// The pinch or wheel zoom factor, in thousandths (1000 is none).
    pub zoom_delta: i64,
}

/// The registry of images and the view of the current one.
pub struct IVImages {
    pub images_sources: Vec<Img>,
    /// The last on-screen rectangle of the shown image.
    pub rect: Rect,
    /// A display size that replaces the available one, if set.
    pub size: Option<Vec2>,
    pub zoom: Vec2,
    /// The accumulated pan.
    pub drag: Vec2,
    pub showed_idx: usize,
}

impl IVImages {
    /// The index is valid whenever the registry is not empty, and the zoom
    /// is within its bounds.
    pub open spec fn wf(&self) -> bool {
        &&& (self.showed_idx < self.images_sources@.len() || self.showed_idx == 0)
        &&& ZOOM_MIN <= self.zoom.x <= ZOOM_MAX
        &&& ZOOM_MIN <= self.zoom.y <= ZOOM_MAX
    }

    /// A registry of the given paths that name a known image format, in
    /// their order, showing the first at unit zoom and without pan.
    pub open spec fn is_fresh(&self, paths: Seq<String>) -> bool {
        &&& self.wf()
        &&& holds_entries(self.images_sources@, 0, recognized(path_views(paths)))
        &&& self.showed_idx == 0
        &&& self.zoom == (Vec2 { x: ZOOM_UNIT, y: ZOOM_UNIT })
        &&& self.drag == (Vec2 { x: 0, y: 0 })
        &&& self.rect == Rect::spec_zero()
        &&& self.size is None
    }

    /// `self` is `before` after pasting `img`: one more entry, a PNG buffer,
    /// when the pixels encode, and no change otherwise.
    pub open spec fn pasted_from(&self, before: &IVImages, img: RawImage) -> bool {
        &&& self.same_view(before)
        &&& match raw_png(img) {
            Some(png) => {
                &&& self.images_sources@.len() == before.images_sources@.len() + 1
                &&& self.images_sources@.drop_last() == before.images_sources@
                &&& self.images_sources@.last().fmt == image::ImageFormat::Png
                &&& self.images_sources@.last().source is Buffer
                &&& self.images_sources@.last().source->Buffer_0@ == png
            },
            None => self.images_sources@ == before.images_sources@,
        }
    }

    /// The set size, or else the available one, scaled by the zoom.
    pub open spec fn spec_target_size(&self, available: Vec2) -> Vec2 {
        let base = match self.size {
            Some(s) => s,
            None => available,
        };
        Vec2 {
            x: scaled(base.x as int, self.zoom.x as int) as i64,
            y: scaled(base.y as int, self.zoom.y as int) as i64,
        }
    }

    /// Everything but the registry is the same in both.
    pub open spec fn same_view(&self, other: &IVImages) -> bool {
        &&& self.rect == other.rect
        &&& self.size == other.size
        &&& self.zoom == other.zoom
        &&& self.drag == other.drag
        &&& self.showed_idx == other.showed_idx
    }

    /// Everything but the zoom and the pan is the same in both.
    pub open spec fn same_but_transform(&self, other: &IVImages) -> bool {
        &&& self.images_sources@ == other.images_sources@
        &&& self.rect == other.rect
        &&& self.size == other.size
    }
}

impl Img {
    /// An entry for a resource that the toolkit resolves by identifier.
    pub fn from_uri(fmt: image::ImageFormat, uri: String) -> (r: Img)
        ensures
            r == (Img { fmt, source: ImgSource::Uri(uri), content: Content::Unread }),
    {
        Img { fmt, source: ImgSource::Uri(uri), content: Content::Unread }
    }

    /// An entry for a file, read on first display.
    pub fn from_path(fmt: image::ImageFormat, path: String) -> (r: Img)
        ensures
            is_path_entry(r, fmt, path@),
    {
        Img { fmt, source: ImgSource::Path(path), content: Content::Unread }
    }

    /// An entry for an encoded image held in memory.
    pub fn from_bytes(fmt: image::ImageFormat, bytes: Vec<u8>) -> (r: Img)
        ensures
            r.fmt == fmt,
            r.source is Buffer,
            r.source->Buffer_0@ == bytes@,
    {
        Img { fmt, source: ImgSource::Buffer(bytes), content: Content::Unread }
    }

    /// What the entry shows.
    pub fn shown(&self) -> (r: Shown)
        ensures
            r == shown_of(*self),
    {
        match &self.source {
            ImgSource::Path(_) => match &self.content {
                Content::Unread => Shown::Loading,
                Content::Read(_) => Shown::Ready,
                Content::Unreadable => Shown::Failed,
            },
            _ => Shown::Ready,
        }
    }

    /// The file to read before the entry can be shown, if any.
    pub fn pending_read(&self) -> (r: Option<String>)
        ensures
            match r {
                Some(p) => read_request(*self) == Some(p@),
                None => read_request(*self) is None,
            },
    {
        match &self.source {
            ImgSource::Path(p) => match &self.content {
                Content::Unread => Some(p.clone()),
                _ => None,
            },
            _ => None,
        }
    }
}

/// Appends an entry for `path` where its extension names a known format.
fn push_path(v: &mut Vec<Img>, path: String)
    ensures
        match format_of_path(path@) {
            Some(f) => final(v)@.len() == old(v)@.len() + 1 && final(v)@.drop_last() == old(v)@
                && is_path_entry(final(v)@.last(), f, path@),
            None => final(v)@ == old(v)@,
        },
{
    match guess_format(path.as_str()) {
        Some(fmt) => {
            v.push(Img::from_path(fmt, path));
            assert(v@.drop_last() =~= old(v)@);
        },
        None => {},
    }
}

proof fn lemma_holds_entries_push(
    old_imgs: Seq<Img>,
    imgs: Seq<Img>,
    start: int,
    want: Seq<(image::ImageFormat, Seq<char>)>,
    path: Seq<char>,
)
    requires
        0 <= start,
        holds_entries(old_imgs, start, want),
        match format_of_path(path) {
            Some(f) => imgs.len() == old_imgs.len() + 1 && imgs.drop_last() == old_imgs
                && is_path_entry(imgs.last(), f, path),
            None => imgs == old_imgs,
        },
    ensures
        holds_entries(
            imgs,
            start,
            match format_of_path(path) {
                Some(f) => want.push((f, path)),
                None => want,
            },
        ),
{
    match format_of_path(path) {
        Some(f) => {
            let w2 = want.push((f, path));
            assert forall|i: int| 0 <= i < w2.len() implies is_path_entry(
                imgs[start + i],
                #[trigger] w2[i].0,
                w2[i].1,
            ) by {
                if i < want.len() {
                    assert(imgs.drop_last()[start + i] == imgs[start + i]);
                    assert(w2[i] == want[i]);
                }
            }
        },
        None => {},
    }
}

impl IVImages {
    /// A registry of the given paths that name a known image format, in
    /// their order, showing the first at unit zoom and without pan.
    pub fn new(paths: Vec<String>) -> (r: IVImages)
        ensures
            r.is_fresh(paths@),
    {
        let ghost ps = path_views(paths@);
        let mut images_sources: Vec<Img> = Vec::new();
        let mut i: usize = 0;
        while i < paths.len()
            invariant
                i <= paths.len(),
                ps == path_views(paths@),
                holds_entries(images_sources@, 0, recognized(ps.subrange(0, i as int))),
            decreases paths.len() - i,
        {
            let p = paths[i].clone();
            let ghost before = images_sources@;
            push_path(&mut images_sources, p);
            proof {
                lemma_holds_entries_push(before, images_sources@, 0, recognized(ps.subrange(0, i as int)), p@);
                assert(ps.subrange(0, i + 1).drop_last() =~= ps.subrange(0, i as int));
            }
            i = i + 1;
        }
        assert(ps.subrange(0, paths.len() as int) =~= ps);
        IVImages {
            images_sources,
            rect: Rect::zero(),
            size: None,
            zoom: Vec2 { x: ZOOM_UNIT, y: ZOOM_UNIT },
            drag: Vec2::zero(),
            showed_idx: 0,
        }
    }

    /// Appends an entry for each dropped path that names a known image
    /// format, in order; items without a path are skipped.
    pub fn extend_from_dropfile(&mut self, paths: Vec<Option<String>>)
        ensures
            final(self).same_view(old(self)),
            final(self).images_sources@.subrange(0, old(self).images_sources@.len() as int)
                == old(self).images_sources@,
            holds_entries(
                final(self).images_sources@,
                old(self).images_sources@.len() as int,
                recognized(dropped_paths(paths@)),
            ),
            old(self).wf() ==> final(self).wf(),
    {
        let ghost start = self.images_sources@.len() as int;
        let ghost old_imgs = self.images_sources@;
        let mut i: usize = 0;
        while i < paths.len()
            invariant
                i <= paths.len(),
                self.same_view(old(self)),
                start == old(self).images_sources@.len(),
                old_imgs == old(self).images_sources@,
                self.images_sources@.len() >= start,
                self.images_sources@.subrange(0, start) == old_imgs,
                holds_entries(
                    self.images_sources@,
                    start,
                    recognized(dropped_paths(paths@.subrange(0, i as int))),
                ),
            decreases paths.len() - i,
        {
            let ghost sub = paths@.subrange(0, i + 1);
            assert(sub.drop_last() =~= paths@.subrange(0, i as int));
            match &paths[i] {
                Some(p) => {
                    let ghost before = self.images_sources@;
                    push_path(&mut self.images_sources, p.clone());
                    proof {
                        lemma_holds_entries_push(
                            before,
                            self.images_sources@,
                            start,
                            recognized(dropped_paths(paths@.subrange(0, i as int))),
                            p@,
                        );
                        assert(dropped_paths(sub) == dropped_paths(paths@.subrange(0, i as int)).push(p@));
                        let ds = dropped_paths(sub);
                        assert(ds.drop_last() =~= dropped_paths(paths@.subrange(0, i as int)));
                        if format_of_path(p@) is Some {
                            assert(self.images_sources@.subrange(0, start) =~= before.subrange(0, start));
                        }
                    }
                },
                None => {},
            }
            i = i + 1;
        }
        assert(paths@.subrange(0, paths.len() as int) =~= paths@);
    }

    /// Encodes raw RGBA8 pixels as PNG and appends them as one PNG entry.
    /// Where the buffer does not match its dimensions or encoding fails,
    /// nothing changes.
    pub fn extend_from_image_data(&mut self, img_data: RawImage)
        ensures
            final(self).pasted_from(old(self), img_data),
            0 < img_data.width <= u32::MAX && 0 < img_data.height <= u32::MAX
                && img_data.bytes@.len() == img_data.width * img_data.height * 4
                ==> final(self).images_sources@.len() == old(self).images_sources@.len() + 1,
            old(self).wf() ==> final(self).wf(),
    {
        let w = img_data.width;
        let h = img_data.height;
        if w > u32::MAX as usize || h > u32::MAX as usize {
            return;
        }
        assert((w as u128) * (h as u128) <= (u32::MAX as u128) * (u32::MAX as u128)) by (nonlinear_arith)
            requires
                w <= u32::MAX,
                h <= u32::MAX,
        ;
        let expected: u128 = (w as u128) * (h as u128) * 4;
        if expected != img_data.bytes.len() as u128 {
            return;
        }
        match encode_png(img_data.bytes.as_slice(), w as u32, h as u32) {
            Some(png) => {
                self.images_sources.push(Img::from_bytes(image::ImageFormat::Png, png));
                assert(self.images_sources@.drop_last() =~= old(self).images_sources@);
            },
            None => {},
        }
    }
}

fn zoom_axis(z: i64, delta: i64) -> (r: i64)
    ensures
        r == zoomed(z as int, delta as int),
{
    let step: i128 = if delta < 0 { 0 } else { delta as i128 / 10 };
    let v: i128 = if delta > ZOOM_UNIT {
        z as i128 + step
    } else if delta < ZOOM_UNIT {
        z as i128 - step
    } else {
        return z;
    };
    if v < ZOOM_MIN as i128 {
        ZOOM_MIN
    } else if v > ZOOM_MAX as i128 {
        ZOOM_MAX
    } else {
        v as i64
    }
}

impl IVImages {
    /// Sets a display size that replaces the available one.
    pub fn set_size(&mut self, size: Vec2)
        ensures
            final(self).size == Some(size),
            final(self).images_sources@ == old(self).images_sources@,
            final(self).rect == old(self).rect,
            final(self).zoom == old(self).zoom,
            final(self).drag == old(self).drag,
            final(self).showed_idx == old(self).showed_idx,
    {
        self.size = Some(size);
    }

    /// Moves to the next image, staying on the last one; a no-op on an
    /// empty registry.
    pub fn set_next(&mut self)
        ensures
            final(self).showed_idx == next_index(
                old(self).showed_idx as int,
                old(self).images_sources@.len() as int,
            ),
            final(self).same_but_transform(old(self)),
            final(self).zoom == old(self).zoom,
            final(self).drag == old(self).drag,
            old(self).wf() ==> final(self).wf(),
    {
        let len = self.images_sources.len();
        if len > 0 {
            if self.showed_idx < len - 1 {
                self.showed_idx = self.showed_idx + 1;
            } else {
                self.showed_idx = len - 1;
            }
        }
    }

    /// Moves to the previous image, staying on the first one.
    pub fn set_prev(&mut self)
        ensures
            final(self).showed_idx == prev_index(old(self).showed_idx as int),
            final(self).same_but_transform(old(self)),
            final(self).zoom == old(self).zoom,
            final(self).drag == old(self).drag,
            old(self).wf() ==> final(self).wf(),
    {
        self.showed_idx = self.showed_idx.saturating_sub(1);
    }

    /// Brings the zoom back to unit scale and drops the pan.
    pub fn reset_view(&mut self)
        ensures
            final(self).zoom == (Vec2 { x: ZOOM_UNIT, y: ZOOM_UNIT }),
            final(self).drag == (Vec2 { x: 0, y: 0 }),
            final(self).same_but_transform(old(self)),
            final(self).showed_idx == old(self).showed_idx,
            old(self).wf() ==> final(self).wf(),
    {
        self.zoom = Vec2 { x: ZOOM_UNIT, y: ZOOM_UNIT };
        self.drag = Vec2::zero();
    }

    /// Applies one frame's keys and zoom gesture and tells what the current
    /// entry shows. "Previous" wins over "next", and both over a zoom
    /// gesture; a reset wins over a zoom gesture of the same frame.
    fn apply_input(&mut self, input: ViewInput) -> (r: Shown)
        ensures
            final(self).images_sources@ == old(self).images_sources@,
            final(self).rect == old(self).rect,
            final(self).size == old(self).size,
            final(self).showed_idx == if input.prev {
                prev_index(old(self).showed_idx as int)
            } else if input.next {
                next_index(old(self).showed_idx as int, old(self).images_sources@.len() as int)
            } else {
                old(self).showed_idx as int
            },
            input.reset ==> final(self).zoom == (Vec2 { x: ZOOM_UNIT, y: ZOOM_UNIT }),
            input.reset ==> final(self).drag == (Vec2 { x: 0, y: 0 }),
            !input.reset ==> final(self).drag == old(self).drag,
            !input.reset && (input.prev || input.next) ==> final(self).zoom == old(self).zoom,
            !input.reset && !input.prev && !input.next ==> final(self).zoom == (Vec2 {
                x: zoomed(old(self).zoom.x as int, input.zoom_delta as int) as i64,
                y: zoomed(old(self).zoom.y as int, input.zoom_delta as int) as i64,
            }),
            old(self).wf() ==> final(self).wf(),
            final(self).showed_idx < final(self).images_sources@.len() ==> r == shown_of(
                final(self).images_sources@[final(self).showed_idx as int],
            ),
            final(self).showed_idx >= final(self).images_sources@.len() ==> r == Shown::Nothing,
    {
        if input.prev {
            self.set_prev();
        } else if input.next {
            self.set_next();
        } else if !input.reset {
            self.zoom = Vec2 {
                x: zoom_axis(self.zoom.x, input.zoom_delta),
                y: zoom_axis(self.zoom.y, input.zoom_delta),
            };
        }
        if input.reset {
            self.reset_view();
        }
        self.current_shown()
    }

    /// What the current entry shows; `Nothing` on an empty registry.
    pub fn current_shown(&self) -> (r: Shown)
        ensures
            self.showed_idx < self.images_sources@.len() ==> r == shown_of(
                self.images_sources@[self.showed_idx as int],
            ),
            self.showed_idx >= self.images_sources@.len() ==> r == Shown::Nothing,
    {
        if self.showed_idx < self.images_sources.len() {
            self.images_sources[self.showed_idx].shown()
        } else {
            Shown::Nothing
        }
    }

    /// The file that the current entry waits for, if any.
    pub fn pending_read(&self) -> (r: Option<String>)
        ensures
            self.showed_idx < self.images_sources@.len() ==> match r {
                Some(p) => read_request(self.images_sources@[self.showed_idx as int]) == Some(p@),
                None => read_request(self.images_sources@[self.showed_idx as int]) is None,
            },
            self.showed_idx >= self.images_sources@.len() ==> r is None,
    {
        if self.showed_idx < self.images_sources.len() {
            self.images_sources[self.showed_idx].pending_read()
        } else {
            None
        }
    }

    /// Records the outcome of reading the current entry's file: its bytes,
    /// or `None` for a failure, which is kept. Only an entry that waits for
    /// a read changes; every other entry stays as it was.
    pub fn record_read(&mut self, bytes: Option<Vec<u8>>)
        ensures
            final(self).same_view(old(self)),
            ({
                let i = old(self).showed_idx as int;
                let imgs = old(self).images_sources@;
                if i < imgs.len() && read_request(imgs[i]) is Some {
                    final(self).images_sources@ == imgs.update(i, after_read(imgs[i], bytes))
                } else {
                    final(self).images_sources@ == imgs
                }
            }),
            old(self).wf() ==> final(self).wf(),
    {
        let i = self.showed_idx;
        if i < self.images_sources.len() && self.images_sources[i].pending_read().is_some() {
            let mut img = self.images_sources.remove(i);
            img.content = match bytes {
                Some(b) => Content::Read(b),
                None => Content::Unreadable,
            };
            self.images_sources.insert(i, img);
            assert(self.images_sources@ =~= old(self).images_sources@.update(
                i as int,
                after_read(old(self).images_sources@[i as int], bytes),
            ));
        }
    }

    /// The size to lay the image out for: the set size, or else the
    /// available one, scaled by the zoom.
    pub fn target_size(&self, available: Vec2) -> (r: Vec2)
        ensures
            r == self.spec_target_size(available),
    {
        let base = match self.size {
            Some(s) => s,
            None => available,
        };
        base.scale(self.zoom)
    }

    /// One frame of the view. Applies the frame's keys and zoom gesture
    /// (see the clauses on the index and the zoom). Where the current entry
    /// has something to draw (`Ready` or `Failed`), this frame's drag is
    /// added to the pan, and the image rectangle is placed in the middle of
    /// the viewport, moved by the pan, at the target size for the viewport.
    /// Otherwise the rectangle stays as it was.
    pub fn draw(&mut self, input: ViewInput, viewport: Rect, drag_delta: Option<Vec2>) -> (r: Shown)
        ensures
            final(self).images_sources@ == old(self).images_sources@,
            final(self).size == old(self).size,
            final(self).showed_idx == if input.prev {
                prev_index(old(self).showed_idx as int)
            } else if input.next {
                next_index(old(self).showed_idx as int, old(self).images_sources@.len() as int)
            } else {
                old(self).showed_idx as int
            },
            input.reset ==> final(self).zoom == (Vec2 { x: ZOOM_UNIT, y: ZOOM_UNIT }),
            !input.reset && (input.prev || input.next) ==> final(self).zoom == old(self).zoom,
            !input.reset && !input.prev && !input.next ==> final(self).zoom == (Vec2 {
                x: zoomed(old(self).zoom.x as int, input.zoom_delta as int) as i64,
                y: zoomed(old(self).zoom.y as int, input.zoom_delta as int) as i64,
            }),
            final(self).showed_idx < final(self).images_sources@.len() ==> r == shown_of(
                final(self).images_sources@[final(self).showed_idx as int],
            ),
            final(self).showed_idx >= final(self).images_sources@.len() ==> r == Shown::Nothing,
            ({
                let base = if input.reset {
                    Vec2 { x: 0, y: 0 }
                } else {
                    old(self).drag
                };
                if r == Shown::Ready || r == Shown::Failed {
                    &&& final(self).drag == pan_after(base, drag_delta)
                    &&& final(self).rect.center == pan_after(viewport.center, Some(final(self).drag))
                    &&& final(self).rect.size == final(self).spec_target_size(viewport.size)
                } else {
                    &&& final(self).drag == base
                    &&& final(self).rect == old(self).rect
                }
            }),
            old(self).wf() ==> final(self).wf(),
    {
        let shown = self.apply_input(input);
        match shown {
            Shown::Ready | Shown::Failed => {
                match drag_delta {
                    Some(d) => {
                        self.drag = self.drag.add_saturating(d);
                    },
                    None => {},
                }
                let size = self.target_size(viewport.size);
                self.rect = Rect { center: viewport.center.add_saturating(self.drag), size };
            },
            _ => {},
        }
        shown
    }

    /// Gives the image rectangle the size that the toolkit laid the image
    /// out at, keeping its center.
    pub fn fit(&mut self, laid_out: Vec2) -> (r: Rect)
        ensures
            r == (Rect { center: old(self).rect.center, size: laid_out }),
            final(self).rect == r,
            final(self).images_sources@ == old(self).images_sources@,
            final(self).size == old(self).size,
            final(self).zoom == old(self).zoom,
            final(self).drag == old(self).drag,
            final(self).showed_idx == old(self).showed_idx,
            old(self).wf() ==> final(self).wf(),
    {
        self.rect = Rect { center: self.rect.center, size: laid_out };
        self.rect
    }
}

/// Any run of "next" and "previous" moves keeps a valid index within
/// `[0, len - 1]`; "previous" at the first index and "next" at the last one
/// leave the index where it is.
pub proof fn lemma_navigation_in_bounds(idx: int, len: int, moves: Seq<bool>)
    requires
        0 <= idx < len,
    ensures
        0 <= navigate(idx, len, moves) < len,
        prev_index(0) == 0,
        next_index(len - 1, len) == len - 1,
    decreases moves.len(),
{
    if moves.len() > 0 {
        lemma_navigation_in_bounds(idx, len, moves.drop_last());
    }
}

/// A failed read is kept: the entry then shows the failure and asks for no
/// further read, and every other entry is the same as before.
pub proof fn lemma_failed_read_is_kept(imgs: Seq<Img>, i: int, j: int)
    requires
        0 <= i < imgs.len(),
        0 <= j < imgs.len(),
        j != i,
        read_request(imgs[i]) is Some,
    ensures
        ({
            let after = imgs.update(i, after_read(imgs[i], None));
            &&& shown_of(after[i]) == Shown::Failed
            &&& read_request(after[i]) is None
            &&& after[j] == imgs[j]
        }),
{
}

proof fn lemma_recognized_count(s: Seq<Seq<char>>, e: (image::ImageFormat, Seq<char>))
    ensures
        recognized(s).to_multiset().count(e) == if format_of_path(e.1) == Some(e.0) {
            s.to_multiset().count(e.1)
        } else {
            0
        },
    decreases s.len(),
{
    broadcast use vstd::seq_lib::group_to_multiset_ensures;

    if s.len() == 0 {
        assert(s.to_multiset().len() == 0);
        assert(recognized(s).to_multiset().len() == 0);
    } else {
        let t = s.drop_last();
        lemma_recognized_count(t, e);
        assert(s =~= t.push(s.last()));
    }
}

/// Which entries discovery keeps does not depend on the order in which the
/// paths come (a directory listed in any order, by any number of workers):
/// two orderings of the same paths give the same entries, counted with
/// their multiplicity.
pub proof fn lemma_recognized_order_free(p: Seq<Seq<char>>, q: Seq<Seq<char>>)
    requires
        p.to_multiset() == q.to_multiset(),
    ensures
        recognized(p).to_multiset() == recognized(q).to_multiset(),
{
    assert forall|e: (image::ImageFormat, Seq<char>)|
        recognized(p).to_multiset().count(e) == recognized(q).to_multiset().count(e) by {
        lemma_recognized_count(p, e);
        lemma_recognized_count(q, e);
    }
    assert(recognized(p).to_multiset() =~= recognized(q).to_multiset());
}

} // verus!
