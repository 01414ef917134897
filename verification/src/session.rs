//! The editor session: one atlas, one card size, the regions of the card
//! and the gesture under way, kept consistent with one another.

use crate::document::{deserialize, DocumentView, Loaded, LoadedView, ParseError};
use crate::geometry::{
    configure, lemma_spec_configure, spec_configure, AtlasSize, CardSize, Geometry, Rect,
};
use crate::gesture::{
    lemma_step_keeps_wf, lemma_step_selects_in_range, state_wf, step, DisplayFrame,
    GestureController, GestureOutput, GestureState, PointerEvent,
};
use crate::naming::{default_name, default_region_name};
use crate::picker::{take_selected_image_bytes, Mailbox};
use crate::pixels::{decode, DecodeError, PixelBuffer};
use crate::region::{Region, RegionStore, RegionView};
use vstd::prelude::*;

verus! {

/// Number of card formats that can be chosen by name.
pub const PRESET_COUNT: usize = 3;

/// Width of the cards of a new session.
pub const DEFAULT_CARD_WIDTH: usize = 535;

/// Height of the cards of a new session.
pub const DEFAULT_CARD_HEIGHT: usize = 752;

/// Width and height of the cards of a format.
pub open spec fn preset_dimensions(preset: int) -> (usize, usize) {
    if preset == 0 {
        (535usize, 752usize)
    } else {
        (1380usize, 912usize)
    }
}

/// Width and height of the cards of a format, if there is such a format.
pub fn preset_size(preset: usize) -> (size: Option<(usize, usize)>)
    ensures
        preset < PRESET_COUNT ==> size == Some(preset_dimensions(preset as int)),
        preset >= PRESET_COUNT ==> size is None,
{
    if preset == 0 {
        Some((535, 752))
    } else if preset < PRESET_COUNT {
        Some((1380, 912))
    } else {
        None
    }
}

/// What a session is.
pub struct SessionView {
    /// The atlas, once one was loaded.
    pub atlas: Option<PixelBuffer>,
    /// The card size in effect.
    pub card: CardSize,
    /// The index of the card in hand.
    pub index: u64,
    /// The format chosen by name, if the card size came from one.
    pub preset: Option<usize>,
    /// The regions, in order.
    pub regions: Seq<RegionView>,
    /// The position of the selected region.
    pub selection: Option<usize>,
    /// Where the gesture stands.
    pub gesture: GestureState,
    /// The name proposed for the pending rectangle.
    pub proposed_name: Seq<char>,
}

impl SessionView {
    /// The size of the atlas; 0 x 0 while none is loaded.
    pub open spec fn atlas_size(self) -> AtlasSize {
        match self.atlas {
            Some(atlas) => atlas.size(),
            None => AtlasSize { width: 0, height: 0 },
        }
    }

    /// The grid of the atlas for the card size in effect.
    pub open spec fn geometry(self) -> Geometry {
        spec_configure(self.atlas_size(), self.card)
    }

    /// Where the card in hand lies in the atlas, if a card is shown.
    pub open spec fn shown_rect(self) -> Option<Rect> {
        match self.atlas {
            Some(_) => self.geometry().card_rect(self.index),
            None => None,
        }
    }

    /// A session is consistent when its card size and atlas are valid, the
    /// selection is a position of the store, the gesture is valid, and a
    /// format chosen by name has the card size in effect. The index is held
    /// to the grid when it is set and when the card size changes; after a
    /// new atlas it may lie beyond the grid, and no card is shown then.
    pub open spec fn wf(self) -> bool {
        &&& self.card.wf()
        &&& self.atlas matches Some(atlas) ==> atlas.wf()
        &&& self.selection matches Some(i) ==> i < self.regions.len()
        &&& state_wf(self.gesture)
        &&& self.preset matches Some(p) ==> p < PRESET_COUNT && self.card == CardSize::spec_new(
            preset_dimensions(p as int).0,
            preset_dimensions(p as int).1,
        )
    }

    /// The index held to the grid.
    pub open spec fn clamped_index(self) -> u64 {
        if self.index > self.geometry().max_index() {
            self.geometry().max_index()
        } else {
            self.index
        }
    }

    /// The session after the card size was set. A size that differs from the
    /// one in effect moves the index into the new grid, clears the selection
    /// and drops the gesture with its pending rectangle: those were made in
    /// the pixel space of the old card. The regions stay as they are.
    pub open spec fn resized(self, card: CardSize, preset: Option<usize>) -> SessionView {
        if card == self.card {
            SessionView { preset, ..self }
        } else {
            let sized = SessionView { card, ..self };
            SessionView {
                card,
                preset,
                index: sized.clamped_index(),
                selection: None,
                gesture: GestureState::Idle,
                proposed_name: Seq::empty(),
                ..self
            }
        }
    }

    /// The session after a document or a bare list of regions was loaded.
    /// Both replace the regions and clear the selection; a document also
    /// sets the card size it records, which is then no format chosen by
    /// name; a bare list leaves the card size alone.
    pub open spec fn with_loaded(self, loaded: LoadedView) -> SessionView {
        match loaded {
            LoadedView::Document(document) => {
                let sized = self.resized(
                    CardSize::spec_new(document.image_size.0, document.image_size.1),
                    None,
                );
                SessionView { regions: document.regions, selection: None, ..sized }
            },
            LoadedView::Legacy(regions) => SessionView { regions, selection: None, ..self },
        }
    }

    /// The session after a pointer event. While no card is shown the event
    /// is ignored. Otherwise the gesture takes its transition; a click sets
    /// or clears the selection, and a rectangle that becomes pending is
    /// proposed the next default name.
    pub open spec fn with_event(self, event: PointerEvent, frame: Option<DisplayFrame>) -> (
        SessionView,
        GestureOutput,
    ) {
        let shown = if self.shown_rect() is Some {
            frame
        } else {
            None
        };
        let next = step(self.gesture, event, shown, self.regions);
        (
            SessionView {
                gesture: next.0,
                selection: match next.1 {
                    GestureOutput::Selected(i) => Some(i),
                    GestureOutput::Deselected => None,
                    _ => self.selection,
                },
                proposed_name: match next.1 {
                    GestureOutput::PendingRegion(_) => default_name(self.regions.len()),
                    _ => self.proposed_name,
                },
                ..self
            },
            next.1,
        )
    }

    /// The session after the region at a position was deleted. A position
    /// that does not exist changes nothing. The selection is cleared where
    /// it was the deleted position or is no position of the store any more.
    pub open spec fn without_region(self, index: usize) -> SessionView {
        if index < self.regions.len() {
            SessionView {
                regions: self.regions.remove(index as int),
                selection: match self.selection {
                    Some(s) => if s == index || s >= self.regions.len() - 1 {
                        None
                    } else {
                        Some(s)
                    },
                    None => None,
                },
                ..self
            }
        } else {
            self
        }
    }

    /// The session after the pending rectangle was added under a name: the
    /// new region is the last of the store and is selected.
    pub open spec fn with_confirmed(self, name: Seq<char>) -> SessionView {
        match self.gesture {
            GestureState::PendingRegion { rect } => SessionView {
                regions: self.regions.push(RegionView { name, rect }),
                selection: Some(self.regions.len() as usize),
                gesture: GestureState::Idle,
                proposed_name: Seq::empty(),
                ..self
            },
            _ => self,
        }
    }
}

/// Loading the document of one session into another carries the regions
/// over, in order and exact, with the card size they were drawn for. The
/// selection is cleared, and the card size is no format chosen by name.
pub proof fn lemma_saved_document_loads(saved: SessionView, into: SessionView)
    requires
        saved.card.wf(),
    ensures
        ({
            let document = DocumentView {
                image_size: (saved.card.width(), saved.card.height()),
                regions: saved.regions,
            };
            let after = into.with_loaded(LoadedView::Document(document));
            &&& after.regions == saved.regions
            &&& after.card == saved.card
            &&& after.selection is None
            &&& after.preset is None
            &&& after.atlas == into.atlas
        }),
{
    saved.card.lemma_same_dimensions();
}

/// Loading a bare list of regions replaces the regions and clears the
/// selection; the card size, the format chosen by name, the atlas, the index
/// and the gesture stay as they are.
pub proof fn lemma_legacy_list_loads(regions: Seq<RegionView>, into: SessionView)
    ensures
        into.with_loaded(LoadedView::Legacy(regions)) == (SessionView {
            regions,
            selection: None,
            ..into
        }),
{
}

/// Setting the card size leaves the regions as they are and never raises the
/// index; a size that differs from the one in effect holds the index to the
/// new grid and clears the selection.
pub proof fn lemma_resize_clamps_and_keeps_regions(
    session: SessionView,
    card: CardSize,
    preset: Option<usize>,
)
    requires
        session.wf(),
        card.wf(),
    ensures
        session.resized(card, preset).regions == session.regions,
        session.resized(card, preset).atlas == session.atlas,
        session.resized(card, preset).card == card,
        session.resized(card, preset).index <= session.index,
        card != session.card ==> session.resized(card, preset).index <= session.resized(
            card,
            preset,
        ).geometry().max_index(),
        card != session.card ==> session.resized(card, preset).selection is None,
        card == session.card ==> session.resized(card, preset).index == session.index,
{
}

/// The editor session.
#[derive(Debug)]
pub struct EditorSession {
    atlas: Option<PixelBuffer>,
    card: CardSize,
    geometry: Geometry,
    index: u64,
    preset: Option<usize>,
    store: RegionStore,
    selection: Option<usize>,
    gesture: GestureController,
    proposed_name: String,
    preview: Option<PixelBuffer>,
}

impl View for EditorSession {
    type V = SessionView;

    closed spec fn view(&self) -> SessionView {
        SessionView {
            atlas: self.atlas,
            card: self.card,
            index: self.index,
            preset: self.preset,
            regions: self.store@,
            selection: self.selection,
            gesture: self.gesture.state(),
            proposed_name: self.proposed_name@,
        }
    }
}

impl EditorSession {
    /// The session is valid when what it is is consistent, the grid it
    /// keeps is the grid of its atlas and card size, and a preview it keeps
    /// is the image of the card in hand.
    pub closed spec fn wf(&self) -> bool {
        &&& self@.wf()
        &&& self.geometry == self@.geometry()
        &&& self.geometry.wf()
        &&& self.preview matches Some(image) ==> (self.atlas matches Some(atlas)
            && self@.shown_rect() matches Some(rect) && atlas.is_crop(rect, image))
    }

    /// What is consistent of a valid session.
    pub proof fn lemma_wf(&self)
        requires
            self.wf(),
        ensures
            self@.wf(),
    {
    }

    /// A session without atlas and regions, for cards of the default size.
    pub fn new() -> (session: EditorSession)
        ensures
            session.wf(),
            session@ == (SessionView {
                atlas: None,
                card: CardSize::spec_new(DEFAULT_CARD_WIDTH, DEFAULT_CARD_HEIGHT),
                index: 0,
                preset: None,
                regions: Seq::empty(),
                selection: None,
                gesture: GestureState::Idle,
                proposed_name: Seq::empty(),
            }),
    {
        let card = CardSize::new(DEFAULT_CARD_WIDTH, DEFAULT_CARD_HEIGHT);
        let geometry = configure(AtlasSize { width: 0, height: 0 }, card);
        EditorSession {
            atlas: None,
            card,
            geometry,
            index: 0,
            preset: None,
            store: RegionStore::new(),
            selection: None,
            gesture: GestureController::new(),
            proposed_name: String::new(),
            preview: None,
        }
    }
}

impl EditorSession {
    /// The card size in effect.
    pub fn card_size(&self) -> (card: CardSize)
        ensures
            card == self@.card,
    {
        self.card
    }

    /// The grid of the atlas for the card size in effect.
    pub fn geometry(&self) -> (geometry: Geometry)
        requires
            self.wf(),
        ensures
            geometry == self@.geometry(),
    {
        self.geometry
    }

    /// The size of the atlas; 0 x 0 while none is loaded.
    pub fn atlas_size(&self) -> (size: AtlasSize)
        ensures
            size == self@.atlas_size(),
    {
        match &self.atlas {
            Some(atlas) => atlas.size(),
            None => AtlasSize { width: 0, height: 0 },
        }
    }

    /// The index of the card in hand.
    pub fn index(&self) -> (index: u64)
        ensures
            index == self@.index,
    {
        self.index
    }

    /// The format chosen by name, if the card size came from one.
    pub fn preset(&self) -> (preset: Option<usize>)
        ensures
            preset == self@.preset,
    {
        self.preset
    }

    /// The regions, in order.
    pub fn regions(&self) -> (store: &RegionStore)
        ensures
            store@ == self@.regions,
    {
        &self.store
    }

    /// The position of the selected region.
    pub fn selection(&self) -> (selection: Option<usize>)
        ensures
            selection == self@.selection,
    {
        self.selection
    }

    /// Where the gesture stands.
    pub fn gesture_state(&self) -> (state: GestureState)
        ensures
            state == self@.gesture,
    {
        self.gesture.state()
    }

    /// The rectangle that waits for a name, if there is one.
    pub fn pending(&self) -> (rect: Option<Rect>)
        ensures
            rect == (match self@.gesture {
                GestureState::PendingRegion { rect } => Some(rect),
                _ => None,
            }),
    {
        match self.gesture.state() {
            GestureState::PendingRegion { rect } => Some(rect),
            _ => None,
        }
    }

    /// The name proposed for the pending rectangle.
    pub fn proposed_name(&self) -> (name: &str)
        ensures
            name@ == self@.proposed_name,
    {
        self.proposed_name.as_str()
    }

    /// Whether a card is shown: an atlas is loaded and holds the card in
    /// hand.
    pub fn has_card(&self) -> (shown: bool)
        requires
            self.wf(),
        ensures
            shown == self@.shown_rect() is Some,
    {
        self.atlas.is_some() && self.geometry.card_rect(self.index).is_some()
    }

    /// Puts a card size into effect and recomputes what hangs on it.
    fn resize(&mut self, card: CardSize, preset: Option<usize>)
        requires
            old(self).wf(),
            card.wf(),
            preset matches Some(p) ==> p < PRESET_COUNT && card == CardSize::spec_new(
                preset_dimensions(p as int).0,
                preset_dimensions(p as int).1,
            ),
        ensures
            final(self).wf(),
            final(self)@ == old(self)@.resized(card, preset),
    {
        self.preset = preset;
        self.preview = None;
        if card != self.card {
            self.card = card;
            self.geometry = configure(self.atlas_size(), card);
            if self.index > self.geometry.max_index() {
                self.index = self.geometry.max_index();
            }
            self.selection = None;
            self.gesture.reset();
            self.proposed_name = String::new();
        }
    }

    /// Sets the card size, a zero dimension raised to one pixel. The size is
    /// then no format chosen by name, unless it is the size already in
    /// effect, which changes nothing. The regions are left as they are: their
    /// coordinates are not rescaled.
    pub fn set_card_size(&mut self, width: usize, height: usize)
        requires
            old(self).wf(),
        ensures
            final(self).wf(),
            CardSize::spec_new(width, height) == old(self)@.card ==> final(self)@ == old(self)@,
            CardSize::spec_new(width, height) != old(self)@.card ==> final(self)@
                == old(self)@.resized(CardSize::spec_new(width, height), None),
    {
        let card = CardSize::new(width, height);
        if card != self.card {
            self.resize(card, None);
        }
    }

    /// Chooses a card format by name: its size is put into effect. A number
    /// that names no format changes nothing and gives `false`.
    pub fn select_preset(&mut self, preset: usize) -> (known: bool)
        requires
            old(self).wf(),
        ensures
            final(self).wf(),
            known == (preset < PRESET_COUNT),
            known ==> final(self)@ == old(self)@.resized(
                CardSize::spec_new(
                    preset_dimensions(preset as int).0,
                    preset_dimensions(preset as int).1,
                ),
                Some(preset),
            ),
            !known ==> final(self)@ == old(self)@,
    {
        match preset_size(preset) {
            Some((width, height)) => {
                self.resize(CardSize::new(width, height), Some(preset));
                true
            },
            None => false,
        }
    }

    /// Treats the card size as one of no named format. The size stays.
    pub fn clear_preset(&mut self)
        requires
            old(self).wf(),
        ensures
            final(self).wf(),
            final(self)@ == (SessionView { preset: None, ..old(self)@ }),
    {
        self.preset = None;
    }

    /// Takes the card with the given index in hand; an index beyond the grid
    /// takes the last card.
    pub fn set_index(&mut self, index: u64)
        requires
            old(self).wf(),
        ensures
            final(self).wf(),
            final(self)@ == (SessionView {
                index: (SessionView { index, ..old(self)@ }).clamped_index(),
                ..old(self)@
            }),
    {
        let max_index = self.geometry.max_index();
        self.index = if index > max_index { max_index } else { index };
        self.preview = None;
    }

    /// Replaces the atlas. Index, card size, regions, selection and gesture
    /// stay as they are.
    pub fn load_atlas(&mut self, atlas: PixelBuffer)
        requires
            old(self).wf(),
            atlas.wf(),
        ensures
            final(self).wf(),
            final(self)@ == (SessionView { atlas: Some(atlas), ..old(self)@ }),
    {
        self.geometry = configure(atlas.size(), self.card);
        self.atlas = Some(atlas);
        self.preview = None;
    }

    /// Decodes the bytes of an image file and replaces the atlas with the
    /// picture; index, card size, regions, selection and gesture stay as they
    /// are. Bytes that the decoder rejects change nothing.
    pub fn load_atlas_bytes(&mut self, bytes: &[u8]) -> (result: Result<(), DecodeError>)
        requires
            old(self).wf(),
        ensures
            final(self).wf(),
            result is Err ==> final(self)@ == old(self)@,
            result is Ok ==> (final(self)@.atlas matches Some(atlas) && atlas.wf() && final(self)@
                == (SessionView { atlas: Some(atlas), ..old(self)@ })),
    {
        match decode(bytes) {
            Ok(atlas) => {
                self.load_atlas(atlas);
                Ok(())
            },
            Err(error) => Err(error),
        }
    }

    /// Takes what waits in the mailbox, if anything, and loads it as the
    /// atlas. Gives the name of the file where the picture was loaded, the
    /// decoder's error where it was not, and `None` where nothing waited. The
    /// mailbox is empty afterwards.
    pub fn poll_mailbox(&mut self, mailbox: &mut Mailbox) -> (outcome: Option<
        Result<String, DecodeError>,
    >)
        requires
            old(self).wf(),
        ensures
            final(self).wf(),
            final(mailbox)@ is None,
            outcome is None <==> old(mailbox)@ is None,
            outcome matches Some(Ok(name)) ==> old(mailbox)@ matches Some(selection)
                && name@ == selection.1,
            outcome matches Some(Ok(_)) ==> (final(self)@.atlas matches Some(atlas) && atlas.wf()
                && final(self)@ == (SessionView { atlas: Some(atlas), ..old(self)@ })),
            !(outcome matches Some(Ok(_))) ==> final(self)@ == old(self)@,
    {
        match take_selected_image_bytes(mailbox) {
            Some((bytes, name)) => match self.load_atlas_bytes(bytes.as_slice()) {
                Ok(()) => Some(Ok(name)),
                Err(error) => Some(Err(error)),
            },
            None => None,
        }
    }

    /// Feeds one pointer event, with the place and scale at which the card
    /// is shown, to the gesture and acts on what it leads to.
    pub fn feed_pointer_event(&mut self, event: PointerEvent, frame: Option<DisplayFrame>) -> (output:
        GestureOutput)
        requires
            old(self).wf(),
            frame matches Some(f) ==> f.scale.wf(),
        ensures
            final(self).wf(),
            (final(self)@, output) == old(self)@.with_event(event, frame),
    {
        let shown = if self.has_card() { frame } else { None };
        proof {
            lemma_step_keeps_wf(self.gesture.state(), event, shown, self.store@);
            lemma_step_selects_in_range(self.gesture.state(), event, shown, self.store@);
        }
        let output = self.gesture.feed(event, shown, &self.store);
        match output {
            GestureOutput::Selected(i) => {
                self.selection = Some(i);
            },
            GestureOutput::Deselected => {
                self.selection = None;
            },
            GestureOutput::PendingRegion(_) => {
                self.proposed_name = default_region_name(self.store.len());
            },
            _ => {},
        }
        output
    }

    /// Adds the pending rectangle to the store under the given name and
    /// selects it. Gives the position of the new region, or `None` where no
    /// rectangle was pending, which changes nothing.
    pub fn confirm_pending(&mut self, name: String) -> (index: Option<usize>)
        requires
            old(self).wf(),
        ensures
            final(self).wf(),
            final(self)@ == old(self)@.with_confirmed(name@),
            index == (match old(self)@.gesture {
                GestureState::PendingRegion { .. } => Some(old(self)@.regions.len() as usize),
                _ => None,
            }),
    {
        match self.gesture.confirm() {
            Some(rect) => {
                let index = self.store.add(Region::new(name, rect));
                self.selection = Some(index);
                self.proposed_name = String::new();
                Some(index)
            },
            None => None,
        }
    }

    /// Drops the pending rectangle and its name. The store is not touched.
    pub fn cancel_pending(&mut self)
        requires
            old(self).wf(),
        ensures
            final(self).wf(),
            final(self)@ == (match old(self)@.gesture {
                GestureState::PendingRegion { .. } => SessionView {
                    gesture: GestureState::Idle,
                    proposed_name: Seq::empty(),
                    ..old(self)@
                },
                _ => old(self)@,
            }),
    {
        match self.gesture.state() {
            GestureState::PendingRegion { .. } => {
                self.gesture.cancel();
                self.proposed_name = String::new();
            },
            _ => {},
        }
    }

    /// Selects the region at a position, or none. A position that the store
    /// does not have selects none.
    pub fn select_region(&mut self, selection: Option<usize>)
        requires
            old(self).wf(),
        ensures
            final(self).wf(),
            final(self)@ == (SessionView {
                selection: match selection {
                    Some(i) => if i < old(self)@.regions.len() {
                        Some(i)
                    } else {
                        None
                    },
                    None => None,
                },
                ..old(self)@
            }),
    {
        self.selection = match selection {
            Some(i) => if i < self.store.len() {
                Some(i)
            } else {
                None
            },
            None => None,
        };
    }

    /// Deletes the region at a position. A position that does not exist
    /// changes nothing.
    pub fn delete_region(&mut self, index: usize)
        requires
            old(self).wf(),
        ensures
            final(self).wf(),
            final(self)@ == old(self)@.without_region(index),
    {
        if index < self.store.len() {
            self.store.delete(index);
            match self.selection {
                Some(s) => {
                    if s == index || s >= self.store.len() {
                        self.selection = None;
                    }
                },
                None => {},
            }
        }
    }

    /// Deletes every region and clears the selection.
    pub fn clear_regions(&mut self)
        requires
            old(self).wf(),
        ensures
            final(self).wf(),
            final(self)@ == (SessionView {
                regions: Seq::empty(),
                selection: None,
                ..old(self)@
            }),
    {
        self.store.clear();
        self.selection = None;
    }

    /// Puts what was read from a region document into effect.
    pub fn apply_loaded(&mut self, loaded: Loaded)
        requires
            old(self).wf(),
        ensures
            final(self).wf(),
            final(self)@ == old(self)@.with_loaded(loaded@),
    {
        match loaded {
            Loaded::Document(document) => {
                let card = CardSize::new(document.image_size.0, document.image_size.1);
                self.resize(card, None);
                self.store = RegionStore::from_regions(document.regions);
                self.selection = None;
            },
            Loaded::Legacy(regions) => {
                self.store = RegionStore::from_regions(regions);
                self.selection = None;
                self.preview = None;
            },
        }
    }

    /// Reads the text of a region document and puts it into effect. A text
    /// that is rejected changes nothing.
    pub fn load_regions(&mut self, text: &[u8]) -> (result: Result<(), ParseError>)
        requires
            old(self).wf(),
        ensures
            final(self).wf(),
            result is Ok <==> crate::document::loaded_of_text(text@) is Some,
            result is Ok ==> final(self)@ == old(self)@.with_loaded(
                crate::document::loaded_of_text(text@)->0,
            ),
            result matches Err(e) ==> e == ParseError::UnknownFormat && final(self)@ == old(
                self,
            )@,
    {
        match deserialize(text) {
            Ok(loaded) => {
                self.apply_loaded(loaded);
                Ok(())
            },
            Err(error) => Err(error),
        }
    }

    /// Writes the regions and the card size in effect as the text of a
    /// region document. A text that is given reads back, by `load_regions`,
    /// as these regions and this card size. `None` where the printer fails or
    /// its text does not read back.
    pub fn save_regions(&self) -> (text: Option<Vec<u8>>)
        ensures
            text matches Some(bytes) ==> crate::json::json_printed(
                crate::document::document_json(self.spec_document()),
            ) == Some(bytes@) && crate::document::loaded_of_text(bytes@) == Some(
                LoadedView::Document(self.spec_document()),
            ),
            text is None ==> (match crate::json::json_printed(
                crate::document::document_json(self.spec_document()),
            ) {
                Some(printed) => crate::document::loaded_of_text(printed) != Some(
                    LoadedView::Document(self.spec_document()),
                ),
                None => true,
            }),
    {
        self.store.serialize(self.card).to_bytes()
    }

    /// The document of the session: its regions with the card size in
    /// effect.
    pub open spec fn spec_document(&self) -> crate::document::DocumentView {
        crate::document::DocumentView {
            image_size: (self@.card.width(), self@.card.height()),
            regions: self@.regions,
        }
    }

    /// Makes sure that the image of the card in hand is at hand, cutting it
    /// out of the atlas where it is not. Gives whether a card is shown.
    fn refresh_preview(&mut self) -> (shown: bool)
        requires
            old(self).wf(),
        ensures
            final(self).wf(),
            final(self)@ == old(self)@,
            shown == final(self)@.shown_rect() is Some,
            shown == final(self).spec_preview() is Some,
    {
        proof {
            lemma_spec_configure(self@.atlas_size(), self.card);
        }
        if self.preview.is_none() {
            let image = match &self.atlas {
                Some(atlas) => match self.geometry.card_rect(self.index) {
                    Some(rect) => {
                        proof {
                            crate::geometry::lemma_card_rect_never_exceeds(
                                self.geometry,
                                self.index,
                            );
                        }
                        atlas.extract(rect)
                    },
                    None => None,
                },
                None => None,
            };
            self.preview = image;
        }
        self.preview.is_some()
    }

    /// The image kept of the card in hand.
    pub closed spec fn spec_preview(&self) -> Option<PixelBuffer> {
        self.preview
    }

    /// The image of the card in hand: the part of the atlas that the card
    /// covers, copied. `None` exactly where no card is shown. The image is
    /// kept until the card, the atlas or the card size changes.
    pub fn current_preview(&mut self) -> (image: Option<&PixelBuffer>)
        requires
            old(self).wf(),
        ensures
            final(self).wf(),
            final(self)@ == old(self)@,
            image is Some <==> old(self)@.shown_rect() is Some,
            image matches Some(i) ==> (old(self)@.atlas matches Some(atlas) && old(
                self,
            )@.shown_rect() matches Some(rect) && atlas.is_crop(rect, *i)),
    {
        self.refresh_preview();
        self.preview.as_ref()
    }
}

} // verus!
