use vstd::prelude::*;
use crate::sound::{SE_CANCEL, SE_DECIDE, SE_NOT};

verus! {

/// Marks "no neighbour" in the selection links, and "nothing selected".
pub const NONE: usize = usize::MAX;

/// Asks for the first entry when nothing was selected.
pub const FIRST: usize = usize::MAX - 1;

/// The tags a level can be published with.
#[derive(Clone, Copy, PartialEq, Eq, Structural, Debug)]
pub enum Tag {
    SpeedrunTechniques,
    Troll,
    Hax,
    Puzzle,
    Platforming,
    Speedrun,
    Short,
    Long,
    Music,
    PuzzlePiece,
}

/// The bit of a tag in a level's tag set.
pub open spec fn spec_tag_bit(t: Tag) -> u32 {
    match t {
        Tag::SpeedrunTechniques => 1,
        Tag::Troll => 2,
        Tag::Hax => 4,
        Tag::Puzzle => 8,
        Tag::Platforming => 16,
        Tag::Speedrun => 32,
        Tag::Short => 64,
        Tag::Long => 128,
        Tag::Music => 256,
        Tag::PuzzlePiece => 512,
    }
}

impl Tag {
    /// The bit of the tag in a level's tag set.
    pub fn bit(self) -> (r: u32)
        ensures
            r == spec_tag_bit(self),
    {
        match self {
            Tag::SpeedrunTechniques => 1,
            Tag::Troll => 2,
            Tag::Hax => 4,
            Tag::Puzzle => 8,
            Tag::Platforming => 16,
            Tag::Speedrun => 32,
            Tag::Short => 64,
            Tag::Long => 128,
            Tag::Music => 256,
            Tag::PuzzlePiece => 512,
        }
    }

    /// Whether the publisher must declare the tag one way or the other (these
    /// tags take the first row of the tag page).
    pub fn mandatory(self) -> (r: bool)
        ensures
            r == (self == Tag::SpeedrunTechniques || self == Tag::Troll || self == Tag::Hax),
    {
        match self {
            Tag::SpeedrunTechniques | Tag::Troll | Tag::Hax => true,
            _ => false,
        }
    }
}

/// The tags that rule each other out: a level is not both short and long.
pub open spec fn spec_partner(t: Tag) -> Option<Tag> {
    match t {
        Tag::Short => Some(Tag::Long),
        Tag::Long => Some(Tag::Short),
        _ => None,
    }
}

/// The tag set after a tag button is pressed: the tag flips, and when it is
/// switched on, its partner (if any) is switched off.
pub open spec fn spec_toggle(tags: u32, t: Tag) -> u32 {
    let flipped = tags ^ spec_tag_bit(t);
    let set = flipped & spec_tag_bit(t) != 0;
    match spec_partner(t) {
        Some(p) => if set {
            flipped & !spec_tag_bit(p)
        } else {
            flipped
        },
        None => flipped,
    }
}

/// Flips a tag; returns the new tag set and whether the tag is now set.
pub fn toggle_tag(tags: u32, t: Tag) -> (r: (u32, bool))
    ensures
        r.0 == spec_toggle(tags, t),
        r.1 == (r.0 & spec_tag_bit(t) != 0),
{
    let bit = t.bit();
    let flipped = tags ^ bit;
    let set = flipped & bit > 0;
    if set && t == Tag::Short {
        let r = flipped & !Tag::Long.bit();
        assert(r & 64u32 != 0) by (bit_vector)
            requires
                flipped & 64u32 > 0u32,
                r == flipped & !128u32,
        ;
        (r, true)
    } else if set && t == Tag::Long {
        let r = flipped & !Tag::Short.bit();
        assert(r & 128u32 != 0) by (bit_vector)
            requires
                flipped & 128u32 > 0u32,
                r == flipped & !64u32,
        ;
        (r, true)
    } else {
        assert((flipped & bit > 0u32) == (flipped & bit != 0u32)) by (bit_vector);
        (flipped, set)
    }
}

/// A level never ends up both short and long by pressing tag buttons: if it was
/// not both before, it is not both after any press.
pub proof fn law_short_and_long_exclusive(tags: u32, t: Tag)
    requires
        !(tags & 64u32 != 0 && tags & 128u32 != 0),
    ensures
        !(spec_toggle(tags, t) & 64u32 != 0 && spec_toggle(tags, t) & 128u32 != 0),
{
    let b = spec_tag_bit(t);
    let r = spec_toggle(tags, t);
    if t == Tag::Short {
        assert(!(r & 64u32 != 0 && r & 128u32 != 0)) by (bit_vector)
            requires
                !(tags & 64u32 != 0 && tags & 128u32 != 0),
                r == (if (tags ^ 64u32) & 64u32 != 0 {
                    (tags ^ 64u32) & !128u32
                } else {
                    tags ^ 64u32
                }),
        ;
    } else if t == Tag::Long {
        assert(!(r & 64u32 != 0 && r & 128u32 != 0)) by (bit_vector)
            requires
                !(tags & 64u32 != 0 && tags & 128u32 != 0),
                r == (if (tags ^ 128u32) & 128u32 != 0 {
                    (tags ^ 128u32) & !64u32
                } else {
                    tags ^ 128u32
                }),
        ;
    } else {
        assert(b != 64u32 && b != 128u32);
        assert(b == 1u32 || b == 2u32 || b == 4u32 || b == 8u32 || b == 16u32 || b == 32u32 || b
            == 256u32 || b == 512u32);
        assert(!(r & 64u32 != 0 && r & 128u32 != 0)) by (bit_vector)
            requires
                !(tags & 64u32 != 0 && tags & 128u32 != 0),
                b == 1u32 || b == 2u32 || b == 4u32 || b == 8u32 || b == 16u32 || b == 32u32 || b
                    == 256u32 || b == 512u32,
                r == tags ^ b,
        ;
    }
}

/// The bit of a tag is one of the ten single bits from 1 to 512.
pub open spec fn is_tag_bit(b: u32) -> bool {
    b == 1u32 || b == 2u32 || b == 4u32 || b == 8u32 || b == 16u32 || b == 32u32 || b == 64u32 || b == 128u32
        || b == 256u32 || b == 512u32
}

proof fn lemma_tag_bits(a: Tag, b: Tag)
    ensures
        is_tag_bit(spec_tag_bit(a)),
        a != b ==> spec_tag_bit(a) != spec_tag_bit(b),
{
}

/// Pressing a tag button flips that tag, switches its partner off when the
/// tag comes on, and leaves every other tag as it was.
pub proof fn law_toggle_touches_only_its_pair(tags: u32, t: Tag, o: Tag)
    ensures
        (spec_toggle(tags, t) & spec_tag_bit(t) != 0) <==> (tags & spec_tag_bit(t) == 0),
        spec_partner(t) matches Some(p) ==> (spec_toggle(tags, t) & spec_tag_bit(t) != 0 ==> spec_toggle(tags, t)
            & spec_tag_bit(p) == 0),
        o != t && spec_partner(t) != Some(o) ==> spec_toggle(tags, t) & spec_tag_bit(o) == tags & spec_tag_bit(o),
{
    lemma_tag_bits(t, o);
    let bt = spec_tag_bit(t);
    let bo = spec_tag_bit(o);
    assert(((tags ^ bt) & bt != 0) <==> (tags & bt == 0)) by (bit_vector)
        requires
            is_tag_bit(bt),
    ;
    match spec_partner(t) {
        Some(p) => {
            lemma_tag_bits(p, o);
            lemma_tag_bits(p, t);
            let bp = spec_tag_bit(p);
            assert(((tags ^ bt) & !bp) & bt == (tags ^ bt) & bt) by (bit_vector)
                requires
                    is_tag_bit(bt),
                    is_tag_bit(bp),
                    bt != bp,
            ;
            assert(((tags ^ bt) & !bp) & bp == 0) by (bit_vector);
            if o != t && spec_partner(t) != Some(o) {
                assert(((tags ^ bt) & !bp) & bo == tags & bo && (tags ^ bt) & bo == tags & bo) by (bit_vector)
                    requires
                        is_tag_bit(bt),
                        is_tag_bit(bp),
                        is_tag_bit(bo),
                        bo != bt,
                        bo != bp,
                ;
            }
        },
        None => {
            if o != t {
                assert((tags ^ bt) & bo == tags & bo) by (bit_vector)
                    requires
                        is_tag_bit(bt),
                        is_tag_bit(bo),
                        bo != bt,
                ;
            }
        },
    }
}

/// Pressing a tag button twice gives back the tag set, for tags without a
/// partner.
pub proof fn law_toggle_twice_restores(tags: u32, t: Tag)
    requires
        spec_partner(t) is None,
    ensures
        spec_toggle(spec_toggle(tags, t), t) == tags,
{
    let b = spec_tag_bit(t);
    assert((tags ^ b) ^ b == tags) by (bit_vector);
}

/// What choosing an entry of the publish menu does.
#[derive(Clone, Copy, PartialEq, Eq, Structural, Debug)]
pub enum Action {
    NoAction,
    ToggleTag(Tag),
    Publish,
    Editor,
    Menu,
}

/// An entry of the publish menu: its box on screen, the entries that the four
/// directions lead to, and what choosing it does.
#[derive(Clone, Copy, PartialEq, Eq, Structural, Debug)]
pub struct SelectableItem {
    pub x: i32,
    pub y: i32,
    pub width: u32,
    pub height: u32,
    pub up: usize,
    pub down: usize,
    pub left: usize,
    pub right: usize,
    pub action: Action,
}

/// The tags whose buttons stand on the top row of the tag page.
pub open spec fn spec_mandatory(t: Tag) -> bool {
    t == Tag::SpeedrunTechniques || t == Tag::Troll || t == Tag::Hax
}

/// The entry for the `k`-th tag button: three buttons to a row, 140 pixels
/// apart, mandatory tags on the top row and the others below, linked to their
/// neighbours in the grid. A tag that the level forces cannot be toggled.
pub open spec fn spec_tag_item(k: usize, t: Tag, locked: bool) -> SelectableItem {
    SelectableItem {
        x: (40 + (k % 3) * 140) as i32,
        y: if spec_mandatory(t) {
            76
        } else {
            (92 + (k / 3) * 24) as i32
        },
        width: 120,
        height: 16,
        up: if k >= 3 {
            (k - 3) as usize
        } else {
            NONE
        },
        down: (k + 3) as usize,
        left: if k % 3 == 0 {
            NONE
        } else {
            (k - 1) as usize
        },
        right: if k % 3 == 2 {
            NONE
        } else {
            (k + 1) as usize
        },
        action: if locked {
            Action::NoAction
        } else {
            Action::ToggleTag(t)
        },
    }
}

/// Builds the entry for the `k`-th tag button.
pub fn tag_item(k: usize, t: Tag, locked: bool) -> (r: SelectableItem)
    requires
        k + 3 <= usize::MAX,
        !spec_mandatory(t) ==> 92 + (k / 3) * 24 <= i32::MAX,
    ensures
        r == spec_tag_item(k, t, locked),
{
    SelectableItem {
        x: (40 + (k % 3) * 140) as i32,
        y: if t.mandatory() {
            76
        } else {
            (92 + (k / 3) * 24) as i32
        },
        width: 120,
        height: 16,
        up: if k >= 3 {
            k - 3
        } else {
            NONE
        },
        down: k + 3,
        left: if k % 3 == 0 {
            NONE
        } else {
            k - 1
        },
        right: if k % 3 == 2 {
            NONE
        } else {
            k + 1
        },
        action: if locked {
            Action::NoAction
        } else {
            Action::ToggleTag(t)
        },
    }
}

/// The tags of the tag page, in the order they are laid out.
pub open spec fn page_tag(k: int) -> Tag {
    if k == 0 {
        Tag::SpeedrunTechniques
    } else if k == 1 {
        Tag::Troll
    } else if k == 2 {
        Tag::Hax
    } else if k == 3 {
        Tag::Puzzle
    } else if k == 4 {
        Tag::Platforming
    } else if k == 5 {
        Tag::Speedrun
    } else if k == 6 {
        Tag::Short
    } else if k == 7 {
        Tag::Long
    } else {
        Tag::Music
    }
}

fn page_tag_at(k: usize) -> (r: Tag)
    requires
        k < 9,
    ensures
        r == page_tag(k as int),
{
    match k {
        0 => Tag::SpeedrunTechniques,
        1 => Tag::Troll,
        2 => Tag::Hax,
        3 => Tag::Puzzle,
        4 => Tag::Platforming,
        5 => Tag::Speedrun,
        6 => Tag::Short,
        7 => Tag::Long,
        _ => Tag::Music,
    }
}

/// The publish button under the tag grid.
pub open spec fn submit_item() -> SelectableItem {
    SelectableItem {
        x: 210,
        y: 180,
        width: 59,
        height: 59,
        up: 7,
        down: NONE,
        left: NONE,
        right: NONE,
        action: Action::Publish,
    }
}

/// The entries of the tag page, given which tags the level forces: the nine tag
/// buttons (the last row leading down to the publish button) and the publish
/// button.
pub open spec fn spec_tag_page(locked: Seq<bool>) -> Seq<SelectableItem> {
    Seq::new(
        10,
        |k: int|
            if k == 9 {
                submit_item()
            } else if k >= 6 {
                SelectableItem { down: 9, ..spec_tag_item(k as usize, page_tag(k), locked[k]) }
            } else {
                spec_tag_item(k as usize, page_tag(k), locked[k])
            },
    )
}

/// Lays out the tag page; `locked[k]` tells whether the level forces the `k`-th
/// tag of the page.
pub fn tag_page(locked: &[bool; 9]) -> (r: Vec<SelectableItem>)
    ensures
        r@ == spec_tag_page(locked@),
{
    let mut items: Vec<SelectableItem> = Vec::new();
    let mut k: usize = 0;
    while k < 9
        invariant
            k <= 9,
            items@.len() == k,
            forall|j: int| 0 <= j < k ==> items@[j] == spec_tag_item(j as usize, page_tag(j), locked@[j]),
        decreases 9 - k,
    {
        let t = page_tag_at(k);
        let it = tag_item(k, t, locked[k]);
        items.push(it);
        k = k + 1;
    }
    let sil = items.len();
    let mut j: usize = sil - 3;
    while j < sil
        invariant
            sil == 9,
            6 <= j <= 9,
            items@.len() == 9,
            forall|m: int| 0 <= m < 6 ==> items@[m] == spec_tag_item(m as usize, page_tag(m), locked@[m]),
            forall|m: int|
                6 <= m < j ==> items@[m] == (SelectableItem { down: 9, ..spec_tag_item(m as usize, page_tag(m), locked@[m]) }),
            forall|m: int| j <= m < 9 ==> items@[m] == spec_tag_item(m as usize, page_tag(m), locked@[m]),
        decreases 9 - j,
    {
        let mut it = items[j];
        it.down = sil;
        items.set(j, it);
        j = j + 1;
    }
    items.push(SelectableItem {
        x: 210,
        y: 180,
        width: 59,
        height: 59,
        up: sil - 2,
        down: NONE,
        left: NONE,
        right: NONE,
        action: Action::Publish,
    });
    assert(items@ =~= spec_tag_page(locked@));
    items
}

/// The single entry of the result pages (publish failed or succeeded): the whole
/// screen, leading to `action`.
pub fn result_page_item(action: Action) -> (r: SelectableItem)
    ensures
        r == (SelectableItem {
            x: -8i32,
            y: -8i32,
            width: 500,
            height: 500,
            up: NONE,
            down: NONE,
            left: NONE,
            right: NONE,
            action,
        }),
{
    SelectableItem { x: -8, y: -8, width: 500, height: 500, up: NONE, down: NONE, left: NONE, right: NONE, action }
}

/// A direction of the menu controls.
#[derive(Clone, Copy, PartialEq, Eq, Structural, Debug)]
pub enum Dir {
    Up,
    Down,
    Left,
    Right,
}

/// The entry that a direction leads to from the selected one; `FIRST` when
/// nothing is selected.
pub open spec fn spec_neighbour(items: Seq<SelectableItem>, selected: usize, d: Dir) -> usize {
    if selected < items.len() {
        let it = items[selected as int];
        match d {
            Dir::Up => it.up,
            Dir::Down => it.down,
            Dir::Left => it.left,
            Dir::Right => it.right,
        }
    } else {
        FIRST
    }
}

/// The entry that a direction leads to from the selected one.
pub fn neighbour(items: &Vec<SelectableItem>, selected: usize, d: Dir) -> (r: usize)
    ensures
        r == spec_neighbour(items@, selected, d),
{
    if selected < items.len() {
        let it = &items[selected];
        match d {
            Dir::Up => it.up,
            Dir::Down => it.down,
            Dir::Left => it.left,
            Dir::Right => it.right,
        }
    } else {
        FIRST
    }
}

/// Where keyboard or pad selection goes: `NONE` keeps the selection, `FIRST`
/// selects the first entry, anything else is selected as it is (an index past
/// the end selects nothing).
pub fn select_target(item: usize) -> (r: Option<usize>)
    ensures
        item == NONE ==> r is None,
        item == FIRST ==> r == Some(0usize),
        item != NONE && item != FIRST ==> r == Some(item),
{
    if item == NONE {
        None
    } else if item == FIRST {
        Some(0)
    } else {
        Some(item)
    }
}

/// The outcome of publishing, as the upload task reports it: `BAD` means it
/// failed, any other value is the id of the published level.
pub const PUBLISH_FAILED: u32 = u32::MAX - 1;

/// Marks "no outcome yet".
pub const NO_OUTCOME: u32 = u32::MAX;

/// What the publish menu does with the upload task's report on a tick: nothing
/// yet, the failure page, or the success page for a level id.
#[derive(Clone, Copy, PartialEq, Eq, Structural, Debug)]
pub enum PublishOutcome {
    Pending,
    Failed,
    Published(u32),
}

/// Reads the upload task's report.
pub fn publish_outcome(report: u32) -> (r: PublishOutcome)
    ensures
        report == NO_OUTCOME ==> r == PublishOutcome::Pending,
        report == PUBLISH_FAILED ==> r == PublishOutcome::Failed,
        report < PUBLISH_FAILED ==> r == PublishOutcome::Published(report),
{
    if report == NO_OUTCOME {
        PublishOutcome::Pending
    } else if report == PUBLISH_FAILED {
        PublishOutcome::Failed
    } else {
        PublishOutcome::Published(report)
    }
}

/// The online id that a publish answer gives the level: the id itself when it
/// is one, nothing for the two reserved values.
pub fn published_id(answer: u32) -> (r: Option<u32>)
    ensures
        answer < u32::MAX - 1 ==> r == Some(answer),
        answer >= u32::MAX - 1 ==> r is None,
{
    if answer < u32::MAX - 1 {
        Some(answer)
    } else {
        None
    }
}

/// The pages of the publish menu.
#[derive(Clone, Copy, PartialEq, Eq, Structural, Debug)]
pub enum PublishPage {
    /// Nothing shown.
    Blank,
    /// The tag buttons and the publish button.
    Tags,
    /// The level is being uploaded.
    Loading,
    Failed,
    /// The level was published under this id.
    Succeeded(u32),
}

/// What the publish menu makes the game and the client do.
#[derive(Clone, Copy, PartialEq, Eq, Structural, Debug)]
pub enum PublishAction {
    Sound(u32),
    /// Show a tag button pressed or not.
    SetPressed(usize, bool),
    /// Serialise the level and upload it with the verification run.
    StartUpload,
    /// Go back to the editor.
    SwitchToEditor,
    /// Fade out and go to the main menu.
    SwitchToMainMenu,
}

/// The publish menu: the tags of the level being published, the page, its
/// entries and the selected one.
pub struct Publish {
    pub tags: u32,
    pub downed: bool,
    pub page: PublishPage,
    pub items: Vec<SelectableItem>,
    pub selected_item: usize,
    pub cursor_shown: bool,
}

/// What pressing an entry does: a forced tag refuses; a tag button flips its
/// tag (a switched-on length tag releases the other one, which stands next to
/// it); publishing starts the upload; the result pages lead back to the editor
/// or on to the main menu.
pub open spec fn spec_act_tags(tags: u32, action: Action) -> u32 {
    match action {
        Action::ToggleTag(t) => spec_toggle(tags, t),
        _ => tags,
    }
}

impl Publish {
    /// A publish menu for a level with these tags, showing nothing yet.
    pub fn new(tags: u32) -> (r: Self)
        ensures
            r.tags == tags,
            !r.downed,
            r.page == PublishPage::Blank,
            r.items@.len() == 0,
            r.selected_item == NONE,
            !r.cursor_shown,
    {
        Publish { tags, downed: false, page: PublishPage::Blank, items: Vec::new(), selected_item: NONE, cursor_shown: false }
    }

    /// Adds the button of a tag after the entries there are; a tag that the
    /// level forces is set and cannot be toggled. Returns whether the button
    /// shows the tag as set.
    pub fn tag(&mut self, t: Tag, locked: bool) -> (r: bool)
        requires
            old(self).items@.len() + 3 <= usize::MAX,
            !spec_mandatory(t) ==> 92 + (old(self).items@.len() / 3) * 24 <= i32::MAX,
        ensures
            final(self).tags == (if locked { old(self).tags | spec_tag_bit(t) } else { old(self).tags }),
            final(self).items@ == old(self).items@.push(spec_tag_item(old(self).items@.len() as usize, t, locked)),
            r == (final(self).tags & spec_tag_bit(t) != 0),
            final(self).page == old(self).page,
            final(self).selected_item == old(self).selected_item,
            final(self).downed == old(self).downed,
            final(self).cursor_shown == old(self).cursor_shown,
    {
        if locked {
            self.tags = self.tags | t.bit();
        }
        let k = self.items.len();
        let it = tag_item(k, t, locked);
        self.items.push(it);
        let b = t.bit();
        let tags = self.tags;
        assert((tags & b > 0u32) == (tags & b != 0u32)) by (bit_vector);
        self.tags & b > 0
    }

    /// Lays out the tag page on the empty menu; `locked[k]` tells whether the
    /// level forces the `k`-th tag of the page, which is then set.
    pub fn page_1(&mut self, locked: &[bool; 9])
        requires
            old(self).items@.len() == 0,
        ensures
            final(self).items@ == spec_tag_page(locked@),
            final(self).page == PublishPage::Tags,
            !final(self).downed,
            final(self).selected_item == old(self).selected_item,
            final(self).cursor_shown == old(self).cursor_shown,
            forall|k: int| 0 <= k < 9 ==> #[trigger] locked@[k] ==> final(self).tags & spec_tag_bit(page_tag(k)) != 0,
    {
        self.downed = false;
        self.page = PublishPage::Tags;
        let mut forced: u32 = 0;
        let mut k: usize = 0;
        while k < 9
            invariant
                k <= 9,
                forall|j: int| 0 <= j < k ==> #[trigger] locked@[j] ==> forced & spec_tag_bit(page_tag(j)) != 0,
            decreases 9 - k,
        {
            if locked[k] {
                let b = page_tag_at(k).bit();
                let old_forced = forced;
                forced = forced | b;
                assert(forced & b != 0u32) by (bit_vector)
                    requires
                        forced == old_forced | b,
                        b != 0u32,
                ;
                assert forall|j: int| 0 <= j < k && #[trigger] locked@[j] implies forced & spec_tag_bit(page_tag(j))
                    != 0 by {
                    let c = spec_tag_bit(page_tag(j));
                    assert(old_forced & c != 0u32);
                    assert(forced & c != 0u32) by (bit_vector)
                        requires
                            forced == old_forced | b,
                            old_forced & c != 0u32,
                    ;
                }
            }
            k = k + 1;
        }
        let old_tags = self.tags;
        self.tags = self.tags | forced;
        let tags = self.tags;
        assert forall|j: int| 0 <= j < 9 && #[trigger] locked@[j] implies tags & spec_tag_bit(page_tag(j)) != 0 by {
            let c = spec_tag_bit(page_tag(j));
            assert(tags & c != 0u32) by (bit_vector)
                requires
                    tags == old_tags | forced,
                    forced & c != 0u32,
            ;
        }
        self.items = tag_page(locked);
    }

    /// Shows that the level is being uploaded.
    pub fn page_loading(&mut self)
        ensures
            final(self).page == PublishPage::Loading,
            final(self).items@ == old(self).items@,
            final(self).tags == old(self).tags,
            final(self).selected_item == old(self).selected_item,
            final(self).downed == old(self).downed,
            final(self).cursor_shown == old(self).cursor_shown,
    {
        self.page = PublishPage::Loading;
    }

    /// Shows that publishing failed; any press leads back to the editor.
    pub fn page_fail(&mut self)
        ensures
            final(self).page == PublishPage::Failed,
            final(self).items@ == old(self).items@.push(
                SelectableItem { x: -8i32, y: -8i32, width: 500, height: 500, up: NONE, down: NONE, left: NONE, right: NONE, action: Action::Editor },
            ),
            final(self).selected_item == 0,
            final(self).tags == old(self).tags,
            final(self).downed == old(self).downed,
            final(self).cursor_shown == old(self).cursor_shown,
    {
        self.page = PublishPage::Failed;
        let it = result_page_item(Action::Editor);
        self.items.push(it);
        self.selected_item = 0;
    }

    /// Shows the id under which the level was published; any press leads on to
    /// the main menu.
    pub fn page_success(&mut self, id: u32)
        ensures
            final(self).page == PublishPage::Succeeded(id),
            final(self).items@ == old(self).items@.push(
                SelectableItem { x: -8i32, y: -8i32, width: 500, height: 500, up: NONE, down: NONE, left: NONE, right: NONE, action: Action::Menu },
            ),
            final(self).selected_item == 0,
            final(self).tags == old(self).tags,
            final(self).downed == old(self).downed,
            final(self).cursor_shown == old(self).cursor_shown,
    {
        self.page = PublishPage::Succeeded(id);
        let it = result_page_item(Action::Menu);
        self.items.push(it);
        self.selected_item = 0;
    }

    /// Selects an entry (an index past the end selects nothing); returns the
    /// entry whose box is to be highlighted.
    pub fn select(&mut self, item: usize) -> (r: Option<SelectableItem>)
        ensures
            final(self).selected_item == item,
            item < old(self).items@.len() ==> r == Some(old(self).items@[item as int]),
            item >= old(self).items@.len() ==> r is None,
            final(self).items@ == old(self).items@,
            final(self).page == old(self).page,
            final(self).tags == old(self).tags,
            final(self).downed == old(self).downed,
            final(self).cursor_shown == old(self).cursor_shown,
    {
        self.selected_item = item;
        if item < self.items.len() {
            Some(self.items[item])
        } else {
            None
        }
    }

    /// Removes every entry and selects nothing.
    pub fn clear(&mut self)
        ensures
            final(self).items@.len() == 0,
            final(self).selected_item == NONE,
            final(self).page == PublishPage::Blank,
            final(self).tags == old(self).tags,
            final(self).downed == old(self).downed,
            final(self).cursor_shown == old(self).cursor_shown,
    {
        self.items = Vec::new();
        self.page = PublishPage::Blank;
        let _ = self.select(NONE);
    }

    /// Moves the selection with the keyboard or a pad, hiding the mouse cursor:
    /// `NONE` keeps the selection, `FIRST` selects the first entry.
    pub fn select_hide(&mut self, item: usize) -> (r: Option<SelectableItem>)
        ensures
            !final(self).cursor_shown,
            item == NONE ==> final(self).selected_item == old(self).selected_item && r is None,
            item == FIRST ==> final(self).selected_item == 0,
            item != NONE && item != FIRST ==> final(self).selected_item == item,
            final(self).items@ == old(self).items@,
            final(self).page == old(self).page,
            final(self).tags == old(self).tags,
            final(self).downed == old(self).downed,
    {
        self.cursor_shown = false;
        match select_target(item) {
            None => None,
            Some(i) => self.select(i),
        }
    }

    /// Acts on the entry pressed, given its action. Switching Short on also
    /// releases the button after it (Long's), and switching Long on the button
    /// before it (Short's).
    pub fn act(&mut self, action: Action) -> (r: Vec<PublishAction>)
        requires
            action is ToggleTag ==> old(self).selected_item < old(self).items@.len(),
            action == Action::ToggleTag(Tag::Long) && old(self).tags & spec_tag_bit(Tag::Long) == 0
                ==> old(self).selected_item > 0,
            action == Action::ToggleTag(Tag::Short) && old(self).tags & spec_tag_bit(Tag::Short) == 0
                ==> old(self).selected_item + 1 < old(self).items@.len(),
        ensures
            final(self).tags == spec_act_tags(old(self).tags, action),
            final(self).downed == old(self).downed,
            final(self).cursor_shown == old(self).cursor_shown,
            match action {
                Action::NoAction => r@ == seq![PublishAction::Sound(SE_NOT)] && final(self).items@ == old(self).items@
                    && final(self).page == old(self).page && final(self).selected_item == old(self).selected_item,
                Action::ToggleTag(t) => {
                    let set = final(self).tags & spec_tag_bit(t) != 0;
                    let sel = old(self).selected_item;
                    let partner = if set && t == Tag::Short {
                        seq![PublishAction::SetPressed((sel + 1) as usize, false)]
                    } else if set && t == Tag::Long {
                        seq![PublishAction::SetPressed((sel - 1) as usize, false)]
                    } else {
                        seq![]
                    };
                    &&& r@ == partner + seq![
                        PublishAction::SetPressed(sel, set),
                        PublishAction::Sound(if set { SE_DECIDE } else { SE_CANCEL }),
                    ]
                    &&& final(self).items@ == old(self).items@
                    &&& final(self).page == old(self).page
                    &&& final(self).selected_item == sel
                },
                Action::Publish => r@ == seq![PublishAction::Sound(SE_DECIDE), PublishAction::StartUpload]
                    && final(self).items@.len() == 0 && final(self).page == PublishPage::Loading
                    && final(self).selected_item == NONE,
                Action::Editor => r@ == seq![PublishAction::Sound(SE_CANCEL), PublishAction::SwitchToEditor]
                    && final(self).items@ == old(self).items@ && final(self).page == old(self).page
                    && final(self).selected_item == old(self).selected_item,
                Action::Menu => r@ == seq![PublishAction::Sound(SE_DECIDE), PublishAction::SwitchToMainMenu]
                    && final(self).items@ == old(self).items@ && final(self).page == old(self).page
                    && final(self).selected_item == old(self).selected_item,
            },
    {
        match action {
            Action::NoAction => vec![PublishAction::Sound(SE_NOT)],
            Action::ToggleTag(t) => {
                let old_tags = self.tags;
                let (tags, set) = toggle_tag(old_tags, t);
                self.tags = tags;
                let sel = self.selected_item;
                assert(sel < self.items.len());
                let mut r: Vec<PublishAction> = Vec::new();
                if set && t == Tag::Short {
                    r.push(PublishAction::SetPressed(sel + 1, false));
                } else if set && t == Tag::Long {
                    assert(old_tags & 128u32 == 0u32) by (bit_vector)
                        requires
                            tags == (if (old_tags ^ 128u32) & 128u32 != 0u32 {
                                (old_tags ^ 128u32) & !64u32
                            } else {
                                old_tags ^ 128u32
                            }),
                            tags & 128u32 != 0u32,
                    ;
                    r.push(PublishAction::SetPressed(sel - 1, false));
                }
                r.push(PublishAction::SetPressed(sel, set));
                r.push(PublishAction::Sound(if set { SE_DECIDE } else { SE_CANCEL }));
                r
            },
            Action::Publish => {
                self.clear();
                self.page_loading();
                vec![PublishAction::Sound(SE_DECIDE), PublishAction::StartUpload]
            },
            Action::Editor => vec![PublishAction::Sound(SE_CANCEL), PublishAction::SwitchToEditor],
            Action::Menu => vec![PublishAction::Sound(SE_DECIDE), PublishAction::SwitchToMainMenu],
        }
    }
}

} // verus!
