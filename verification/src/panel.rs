use vstd::prelude::*;
use vstd::string::StringExecFns;

verus! {

/// A rectangle of cells on the screen, with the asset it shows and the text
/// written at its top left corner.
pub struct Sprite {
    pub x: u16,
    pub y: u16,
    pub width: u16,
    pub height: u16,
    /// The name of the asset to show, once one has been chosen.
    pub asset: Option<String>,
    pub text: String,
    /// The palette index of the text's colour.
    pub text_color: u8,
}

/// A [`Sprite`] as contracts speak of it.
pub struct SpriteView {
    pub x: u16,
    pub y: u16,
    pub width: u16,
    pub height: u16,
    pub asset: Option<Seq<char>>,
    pub text: Seq<char>,
    pub text_color: u8,
}

impl View for Sprite {
    type V = SpriteView;

    open spec fn view(&self) -> SpriteView {
        SpriteView {
            x: self.x,
            y: self.y,
            width: self.width,
            height: self.height,
            asset: match self.asset {
                Some(name) => Some(name@),
                None => None,
            },
            text: self.text@,
            text_color: self.text_color,
        }
    }
}

impl SpriteView {
    /// An empty sprite at the given place.
    pub open spec fn blank(x: u16, y: u16, width: u16, height: u16) -> SpriteView {
        SpriteView { x, y, width, height, asset: None, text: Seq::empty(), text_color: 0 }
    }
}

impl Sprite {
    /// An empty sprite of `width` by `height` cells at `(x, y)`.
    pub fn new(x: u16, y: u16, width: u16, height: u16) -> (sprite: Sprite)
        ensures
            sprite@ == SpriteView::blank(x, y, width, height),
    {
        Sprite { x, y, width, height, asset: None, text: String::new(), text_color: 0 }
    }

    pub fn set_pos(&mut self, x: u16, y: u16)
        ensures
            final(self)@ == (SpriteView { x, y, ..old(self)@ }),
    {
        self.x = x;
        self.y = y;
    }

    /// Chooses the asset that the sprite shows.
    pub fn set_asset(&mut self, name: String)
        ensures
            final(self)@ == (SpriteView { asset: Some(name@), ..old(self)@ }),
    {
        self.asset = Some(name);
    }

    /// Writes `text` at the top left corner, in the colour `color`.
    pub fn set_text(&mut self, text: String, color: u8)
        ensures
            final(self)@ == (SpriteView { text: text@, text_color: color, ..old(self)@ }),
    {
        self.text = text;
        self.text_color = color;
    }
}

/// What a [`Panel`] holds: its sprites in the order in which they were
/// added, each under its tag.
pub struct PanelView {
    pub tags: Seq<Seq<char>>,
    pub sprites: Seq<SpriteView>,
}

impl PanelView {
    /// Every sprite has a tag.
    pub open spec fn wf(self) -> bool {
        self.tags.len() == self.sprites.len()
    }

    /// Whether `index` is the place of the first sprite under `tag`.
    pub open spec fn is_first(self, tag: Seq<char>, index: int) -> bool {
        &&& 0 <= index < self.tags.len()
        &&& self.tags[index] == tag
        &&& forall|j: int| 0 <= j < index ==> self.tags[j] != tag
    }

    /// The place of the first sprite under `tag`, where there is one.
    pub open spec fn first(self, tag: Seq<char>) -> int {
        choose|index: int| self.is_first(tag, index)
    }

    /// The first sprite under a tag is at one place only.
    pub proof fn lemma_first(self, tag: Seq<char>, index: int)
        requires
            self.is_first(tag, index),
        ensures
            self.first(tag) == index,
    {
        let chosen = self.first(tag);
        assert(self.is_first(tag, chosen));
        if chosen < index {
            assert(self.tags[chosen] != tag);
        }
    }

    /// Whether some sprite stands under `tag`.
    pub open spec fn has(self, tag: Seq<char>) -> bool {
        exists|j: int| 0 <= j < self.tags.len() && self.tags[j] == tag
    }
}

/// Sprites that are found by their tags.
pub struct Panel {
    sprites: Vec<Sprite>,
    tags: Vec<String>,
}

impl View for Panel {
    type V = PanelView;

    closed spec fn view(&self) -> PanelView {
        PanelView {
            tags: Seq::new(self.tags@.len(), |i: int| self.tags@[i]@),
            sprites: Seq::new(self.sprites@.len(), |i: int| self.sprites@[i]@),
        }
    }
}

impl Panel {
    /// What every call keeps: see [`PanelView::wf`].
    pub closed spec fn wf(&self) -> bool {
        self.tags@.len() == self.sprites@.len()
    }

    pub proof fn lemma_view_wf(&self)
        requires
            self.wf(),
        ensures
            self@.wf(),
    {
    }

    /// A panel that holds no sprite and no tag.
    pub fn new() -> (panel: Panel)
        ensures
            panel.wf(),
            panel@.tags == Seq::<Seq<char>>::empty(),
            panel@.sprites == Seq::<SpriteView>::empty(),
    {
        let panel = Panel { sprites: Vec::new(), tags: Vec::new() };
        assert(panel@.tags =~= Seq::<Seq<char>>::empty());
        assert(panel@.sprites =~= Seq::<SpriteView>::empty());
        panel
    }

    /// Adds `sprite` after the others, under `tag`.
    pub fn add_sprite(&mut self, sprite: Sprite, tag: &str)
        requires
            old(self).wf(),
        ensures
            final(self).wf(),
            final(self)@.tags == old(self)@.tags.push(tag@),
            final(self)@.sprites == old(self)@.sprites.push(sprite@),
    {
        self.sprites.push(sprite);
        self.tags.push(String::from_str(tag));
        assert(self@.tags =~= old(self)@.tags.push(tag@));
        assert(self@.sprites =~= old(self)@.sprites.push(sprite@));
    }

    /// How many sprites the panel holds.
    pub fn len(&self) -> (n: usize)
        requires
            self.wf(),
        ensures
            n == self@.sprites.len(),
            n == self@.tags.len(),
    {
        self.sprites.len()
    }

    /// The place of the first sprite under `tag`, if there is one.
    pub fn find(&self, tag: &str) -> (place: Option<usize>)
        requires
            self.wf(),
        ensures
            match place {
                Some(index) => self@.is_first(tag@, index as int),
                None => !self@.has(tag@),
            },
    {
        let wanted = String::from_str(tag);
        let mut i: usize = 0;
        while i < self.tags.len()
            invariant
                i <= self.tags@.len(),
                wanted@ == tag@,
                forall|j: int| 0 <= j < i ==> self@.tags[j] != tag@,
            decreases self.tags@.len() - i,
        {
            if self.tags[i] == wanted {
                return Some(i);
            }
            i = i + 1;
        }
        None
    }

    /// The sprite at `index`.
    pub fn sprite(&self, index: usize) -> (sprite: &Sprite)
        requires
            self.wf(),
            index < self@.sprites.len(),
        ensures
            sprite@ == self@.sprites[index as int],
    {
        &self.sprites[index]
    }

    /// The sprite at `index`, to be changed in place.
    pub fn sprite_mut(&mut self, index: usize) -> (sprite: &mut Sprite)
        requires
            old(self).wf(),
            index < old(self)@.sprites.len(),
        ensures
            sprite@ == old(self)@.sprites[index as int],
            final(self).wf(),
            final(self)@.tags == old(self)@.tags,
            final(self)@.sprites =~= old(self)@.sprites.update(index as int, final(sprite)@),
    {
        &mut self.sprites[index]
    }

    /// The first sprite under `tag`, to be changed in place.
    pub fn get_sprite(&mut self, tag: &str) -> (sprite: &mut Sprite)
        requires
            old(self).wf(),
            old(self)@.has(tag@),
        ensures
            final(self).wf(),
            final(self)@.tags == old(self)@.tags,
            old(self)@.is_first(tag@, old(self)@.first(tag@)),
            sprite@ == old(self)@.sprites[old(self)@.first(tag@)],
            final(self)@.sprites == old(self)@.sprites.update(
                old(self)@.first(tag@),
                final(sprite)@,
            ),
    {
        match self.find(tag) {
            Some(index) => {
                proof {
                    self@.lemma_first(tag@, index as int);
                }
                self.sprite_mut(index)
            },
            None => vstd::pervasive::unreached(),
        }
    }
}

} // verus!
