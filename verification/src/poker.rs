use vstd::prelude::*;
use vstd::string::StringExecFns;
use crate::panel::{Panel, PanelView, Sprite, SpriteView};
use crate::text::{decimal_digits, lemma_decimal_length, lemma_digit_char_injective, push_decimal};

verus! {

/// The width of a card, in cells.
pub const CARDW: u16 = 7;

/// The height of a card, in cells.
pub const CARDH: u16 = 5;

/// How many cards a hand shows.
pub const HAND_CARDS: usize = 5;

/// How many cells lie between the left edges of the two hands.
pub const HAND_WIDTH: u16 = 40;

/// The row on which the cards stand.
pub const CARD_ROW: u16 = 7;

/// The palette index of the colour in which a hand is named.
pub const MESSAGE_COLOR: u8 = 222;

/// The width of the table, in cells.
pub const TABLE_WIDTH: u16 = 82;

/// The height of the table, in cells.
pub const TABLE_HEIGHT: u16 = 20;

/// How many sprites the table holds: the background, two hands of cards and
/// a message for each hand.
pub const SPRITES: usize = 13;

/// One player's hand as the table shows it.
pub struct TexasCards {
    /// The five cards that make the hand, each by its number; 0 stands for a
    /// card that lies face down.
    pub best: [u8; 5],
    /// What the hand is called.
    pub texas: String,
}

/// The tag of the card sprite with the number `i`.
pub open spec fn card_tag(i: nat) -> Seq<char> {
    seq!['t'] + decimal_digits(i)
}

/// The tag of the sprite at place `k` of the table.
pub open spec fn tag_at(k: int) -> Seq<char> {
    if k == 0 {
        "back"@
    } else if k <= 10 {
        card_tag((k - 1) as nat)
    } else if k == 11 {
        "msgred"@
    } else {
        "msgblack"@
    }
}

/// The sprite at place `k` of a new table: the background, then ten cards
/// that are not laid out yet, then the two messages, red's on the left and
/// black's on the right.
pub open spec fn sprite_at(k: int) -> SpriteView {
    if k == 0 {
        SpriteView::blank(0, 0, 80, 20)
    } else if k <= 10 {
        SpriteView::blank(0, 0, CARDW, CARDH)
    } else if k == 11 {
        SpriteView::blank(1, 14, 40, 1)
    } else {
        SpriteView::blank(41, 14, 40, 1)
    }
}

/// The tags of the table, in order.
pub open spec fn table_tags() -> Seq<Seq<char>> {
    Seq::new(SPRITES as nat, |k: int| tag_at(k))
}

/// The column of card `i` of hand `n`.
pub open spec fn card_column(n: int, i: int) -> int {
    i * CARDW + 1 + n * HAND_WIDTH
}

/// The name of the asset that shows `card`: the back for 0, else the face
/// with that number; pixels if `graphics`, else text.
pub open spec fn asset_name(card: u8, graphics: bool) -> Seq<char> {
    "poker/"@ + (if card == 0 {
        "back"@
    } else {
        decimal_digits(card as nat)
    }) + "."@ + (if graphics {
        "pix"@
    } else {
        "txt"@
    })
}

/// The card sprite `sprite` once it shows `card` as card `i` of hand `n`.
pub open spec fn laid_out(sprite: SpriteView, n: int, i: int, card: u8, graphics: bool)
    -> SpriteView {
    SpriteView {
        x: card_column(n, i) as u16,
        y: CARD_ROW,
        asset: Some(asset_name(card, graphics)),
        ..sprite
    }
}

/// The message sprite `sprite` once it names a hand.
pub open spec fn named(sprite: SpriteView, texas: Seq<char>) -> SpriteView {
    SpriteView { text: texas, text_color: MESSAGE_COLOR, ..sprite }
}

/// The sprite at place `k` once the two hands have been drawn: red's cards
/// at places 1 to 5, black's at 6 to 10, then the name of red's hand and
/// the name of black's. The background stays.
pub open spec fn drawn(
    sprite: SpriteView,
    k: int,
    red: TexasCards,
    black: TexasCards,
    graphics: bool,
) -> SpriteView {
    if 1 <= k <= 5 {
        laid_out(sprite, 0, k - 1, red.best@[k - 1], graphics)
    } else if 6 <= k <= 10 {
        laid_out(sprite, 1, k - 6, black.best@[k - 6], graphics)
    } else if k == 11 {
        named(sprite, red.texas@)
    } else if k == 12 {
        named(sprite, black.texas@)
    } else {
        sprite
    }
}

/// The sprite at place `k` while the hands are being drawn: `cards` cards
/// and `messages` messages have been dealt with.
pub open spec fn drawn_so_far(
    sprite: SpriteView,
    k: int,
    red: TexasCards,
    black: TexasCards,
    graphics: bool,
    cards: int,
    messages: int,
) -> SpriteView {
    if (1 <= k <= 10 && k - 1 < cards) || (11 <= k <= 12 && k - 11 < messages) {
        drawn(sprite, k, red, black, graphics)
    } else {
        sprite
    }
}

/// No two sprites of the table share a tag.
pub proof fn lemma_tags_differ(j: int, k: int)
    requires
        0 <= j < SPRITES,
        0 <= k < SPRITES,
        j != k,
    ensures
        tag_at(j) != tag_at(k),
{
    reveal_strlit("back");
    reveal_strlit("msgred");
    reveal_strlit("msgblack");
    assert("back"@.len() == 4);
    assert("msgred"@.len() == 6);
    assert("msgblack"@.len() == 8);
    if 1 <= j <= 10 {
        lemma_decimal_length((j - 1) as nat);
        assert(tag_at(j).len() == 2);
        assert(tag_at(j)[1] == crate::text::digit_char((j - 1) as nat));
    }
    if 1 <= k <= 10 {
        lemma_decimal_length((k - 1) as nat);
        assert(tag_at(k).len() == 2);
        assert(tag_at(k)[1] == crate::text::digit_char((k - 1) as nat));
    }
    if 1 <= j <= 10 && 1 <= k <= 10 {
        if tag_at(j) == tag_at(k) {
            lemma_digit_char_injective((j - 1) as nat, (k - 1) as nat);
        }
    }
}

/// On the table the first sprite under the tag of place `k` is the one at
/// place `k`.
pub proof fn lemma_place_of_tag(panel: PanelView, k: int)
    requires
        panel.tags == table_tags(),
        0 <= k < SPRITES,
    ensures
        panel.has(tag_at(k)),
        panel.is_first(tag_at(k), k),
        panel.first(tag_at(k)) == k,
{
    assert(panel.tags[k] == tag_at(k));
    assert forall|j: int| 0 <= j < k implies panel.tags[j] != tag_at(k) by {
        lemma_tags_differ(j, k);
    }
    panel.lemma_first(tag_at(k), k);
}

/// The table of a poker game: a panel with a background, the cards of two
/// hands and a message under each hand.
pub struct PokerRender {
    panel: Panel,
    graphics: bool,
}

impl PokerRender {
    /// The panel holds the table's sprites under the table's tags.
    pub closed spec fn wf(&self) -> bool {
        &&& self.panel.wf()
        &&& self.panel@.tags == table_tags()
        &&& self.panel@.sprites.len() == SPRITES
    }

    /// What the panel holds.
    pub closed spec fn panel_view(&self) -> PanelView {
        self.panel@
    }

    /// Whether the cards are shown as pixels, not as text.
    pub closed spec fn shows_graphics(&self) -> bool {
        self.graphics
    }

    pub proof fn lemma_table(&self)
        requires
            self.wf(),
        ensures
            self.panel_view().tags == table_tags(),
            self.panel_view().sprites.len() == SPRITES,
    {
    }

    /// A table with nothing laid out: the sprites of [`sprite_at`] under
    /// the tags of [`tag_at`].
    pub fn new(graphics: bool) -> (render: PokerRender)
        ensures
            render.wf(),
            render.shows_graphics() == graphics,
            render.panel_view().tags == table_tags(),
            render.panel_view().sprites == Seq::new(SPRITES as nat, |k: int| sprite_at(k)),
    {
        let mut panel = Panel::new();
        panel.add_sprite(Sprite::new(0, 0, 80, 20), "back");
        let mut i: u8 = 0;
        while i < 10
            invariant
                i <= 10,
                panel.wf(),
                panel@.tags == Seq::new((i + 1) as nat, |k: int| tag_at(k)),
                panel@.sprites == Seq::new((i + 1) as nat, |k: int| sprite_at(k)),
            decreases 10 - i,
        {
            let mut tag = String::from_str("t");
            push_decimal(&mut tag, i);
            proof {
                reveal_strlit("t");
                assert(tag@ =~= card_tag(i as nat));
            }
            panel.add_sprite(Sprite::new(0, 0, CARDW, CARDH), tag.as_str());
            i = i + 1;
            proof {
                assert(panel@.tags =~= Seq::new((i + 1) as nat, |k: int| tag_at(k)));
                assert(panel@.sprites =~= Seq::new((i + 1) as nat, |k: int| sprite_at(k)));
            }
        }
        let adj: u16 = 1;
        panel.add_sprite(Sprite::new(0 + adj, 14, 40, 1), "msgred");
        panel.add_sprite(Sprite::new(40 + adj, 14, 40, 1), "msgblack");
        proof {
            assert(panel@.tags =~= table_tags());
            assert(panel@.sprites =~= Seq::new(SPRITES as nat, |k: int| sprite_at(k)));
        }
        PokerRender { panel, graphics }
    }

    /// Gets the table ready to be shown: where cards are shown as text, the
    /// background shows the asset `back.txt`; else nothing changes.
    pub fn init(&mut self)
        requires
            old(self).wf(),
        ensures
            final(self).wf(),
            final(self).shows_graphics() == old(self).shows_graphics(),
            final(self).panel_view().tags == old(self).panel_view().tags,
            final(self).panel_view().sprites == if old(self).shows_graphics() {
                old(self).panel_view().sprites
            } else {
                old(self).panel_view().sprites.update(
                    0,
                    SpriteView { asset: Some("back.txt"@), ..old(self).panel_view().sprites[0] },
                )
            },
    {
        if !self.graphics {
            proof {
                lemma_place_of_tag(self.panel@, 0);
            }
            let background = self.panel.get_sprite("back");
            background.set_asset(String::from_str("back.txt"));
        }
    }

    /// The panel, to be looked at.
    pub fn panel(&self) -> (panel: &Panel)
        ensures
            panel@ == self.panel_view(),
            self.wf() ==> panel.wf(),
    {
        &self.panel
    }

    /// Whether the cards are shown as pixels, not as text.
    pub fn graphics(&self) -> (graphics: bool)
        ensures
            graphics == self.shows_graphics(),
    {
        self.graphics
    }

    /// Lays out the cards of both hands and names each hand under its cards:
    /// every sprite becomes what [`drawn`] says of it.
    pub fn draw_tile(&mut self, red: &TexasCards, black: &TexasCards)
        requires
            old(self).wf(),
        ensures
            final(self).wf(),
            final(self).shows_graphics() == old(self).shows_graphics(),
            final(self).panel_view().tags == old(self).panel_view().tags,
            final(self).panel_view().sprites == Seq::new(
                SPRITES as nat,
                |k: int|
                    drawn(old(self).panel_view().sprites[k], k, *red, *black, old(self).shows_graphics()),
            ),
    {
        let ghost before = self.panel@.sprites;
        let ghost graphics = self.graphics;
        let mut n: usize = 0;
        while n < 2
            invariant
                n <= 2,
                self.wf(),
                self.graphics == graphics,
                before.len() == SPRITES,
                self.panel@.sprites == Seq::new(
                    SPRITES as nat,
                    |k: int| drawn_so_far(before[k], k, *red, *black, graphics, 5 * n, n as int),
                ),
            decreases 2 - n,
        {
            let hand = if n == 0 {
                red
            } else {
                black
            };
            let mut i: usize = 0;
            while i < HAND_CARDS
                invariant
                    n < 2,
                    i <= HAND_CARDS,
                    self.wf(),
                    self.graphics == graphics,
                    before.len() == SPRITES,
                    *hand == (if n == 0 {
                        *red
                    } else {
                        *black
                    }),
                    self.panel@.sprites == Seq::new(
                        SPRITES as nat,
                        |k: int|
                            drawn_so_far(before[k], k, *red, *black, graphics, 5 * n + i, n as int),
                    ),
                decreases HAND_CARDS - i,
            {
                self.draw_card(n, i, hand.best[i]);
                proof {
                    assert(self.panel@.sprites =~= Seq::new(
                        SPRITES as nat,
                        |k: int|
                            drawn_so_far(
                                before[k],
                                k,
                                *red,
                                *black,
                                graphics,
                                5 * n + i + 1,
                                n as int,
                            ),
                    ));
                }
                i = i + 1;
            }
            self.draw_message(n, &hand.texas);
            proof {
                assert(self.panel@.sprites =~= Seq::new(
                    SPRITES as nat,
                    |k: int|
                        drawn_so_far(before[k], k, *red, *black, graphics, 5 * (n + 1), n + 1),
                ));
            }
            n = n + 1;
        }
        proof {
            assert(self.panel@.sprites =~= Seq::new(
                SPRITES as nat,
                |k: int| drawn(before[k], k, *red, *black, graphics),
            ));
        }
    }

    /// Shows `card` as card `i` of hand `n`.
    fn draw_card(&mut self, n: usize, i: usize, card: u8)
        requires
            old(self).wf(),
            n < 2,
            i < HAND_CARDS,
        ensures
            final(self).wf(),
            final(self).graphics == old(self).graphics,
            final(self).panel@.sprites == old(self).panel@.sprites.update(
                1 + 5 * n + i,
                laid_out(
                    old(self).panel@.sprites[1 + 5 * n + i],
                    n as int,
                    i as int,
                    card,
                    old(self).graphics,
                ),
            ),
    {
        let number: u8 = (i + n * 5) as u8;
        let mut tag = String::from_str("t");
        push_decimal(&mut tag, number);
        let mut name = String::from_str("poker/");
        if card == 0 {
            name.append("back");
        } else {
            push_decimal(&mut name, card);
        }
        name.append(".");
        let ext = if self.graphics {
            "pix"
        } else {
            "txt"
        };
        name.append(ext);
        let x: u16 = (i as u16) * CARDW + 1 + (n as u16) * HAND_WIDTH;
        let ghost place: int = 1 + 5 * n + i;
        proof {
            reveal_strlit("t");
            assert(tag@ =~= tag_at(place));
            assert(name@ =~= asset_name(card, self.graphics));
            lemma_place_of_tag(self.panel@, place);
        }
        let sprite = self.panel.get_sprite(tag.as_str());
        sprite.set_asset(name);
        sprite.set_pos(x, CARD_ROW);
    }

    /// Names hand `n` under its cards.
    fn draw_message(&mut self, n: usize, texas: &String)
        requires
            old(self).wf(),
            n < 2,
        ensures
            final(self).wf(),
            final(self).graphics == old(self).graphics,
            final(self).panel@.sprites == old(self).panel@.sprites.update(
                11 + n,
                named(old(self).panel@.sprites[11 + n], texas@),
            ),
    {
        let tag = if n == 0 {
            "msgred"
        } else {
            "msgblack"
        };
        let ghost place: int = 11 + n;
        proof {
            assert(tag@ == tag_at(place));
            lemma_place_of_tag(self.panel@, place);
        }
        let sprite = self.panel.get_sprite(tag);
        sprite.set_text(texas.clone(), MESSAGE_COLOR);
    }
}

} // verus!
