//! The layout of the screen, the buttons on it, and what they answer to.

use vstd::prelude::*;
use vstd::string::StringExecFns;
use crate::frontend::{calls_view, DrawCall, DrawCallView, Renderer};
use crate::input::GameAction;
use crate::localization::Localizer;

pub mod options;

verus! {

/// A rectangle of the screen.
#[derive(Debug, Clone, Copy, PartialEq, Eq, Structural)]
pub struct Panel {
    pub x: u32,
    pub y: u32,
    pub width: u32,
    pub height: u32,
}

/// A button, and what it stands for.
#[derive(Debug, Clone)]
pub struct UiButton {
    pub id: String,
    pub bounds: Panel,
}

/// A number that floats up from where something was hit or healed.
#[derive(Debug, Clone, Copy)]
pub struct FloatingText {
    pub value: i32,
    pub position: (u32, u32),
    pub is_heal: bool,
}

#[derive(Debug, Clone, Copy, PartialEq, Eq, Structural)]
pub enum UiTab {
    Abilities,
    Inventory,
}

/// The key under which the label of a tab is translated.
pub open spec fn tab_key(tab: UiTab) -> Seq<char> {
    match tab {
        UiTab::Abilities => "ui.tab.abilities"@,
        UiTab::Inventory => "ui.tab.inventory"@,
    }
}

impl UiTab {
    /// The label of the tab in the language of `loc`.
    pub fn label(&self, loc: &Localizer) -> (text: String)
        ensures
            text@ == loc.lookup(tab_key(*self)),
    {
        match self {
            UiTab::Abilities => loc.get("ui.tab.abilities"),
            UiTab::Inventory => loc.get("ui.tab.inventory"),
        }
    }
}

/// What the player asked for through the menu.
#[derive(Debug, Clone, PartialEq, Eq)]
pub enum UiEvent {
    AbilityPressed(String),
    InventoryPressed(String),
}

/// The screen: four panels, the buttons of the two tabs, the floating texts, and where
/// the selection stands.
#[derive(Debug)]
pub struct UiManager {
    pub top_bar: Panel,
    pub battlefield: Panel,
    pub info_panel: Panel,
    pub bottom_bar: Panel,
    pub ability_buttons: Vec<UiButton>,
    pub inventory_buttons: Vec<UiButton>,
    pub floating_texts: Vec<FloatingText>,
    pub current_tab: UiTab,
    pub selected_index: usize,
}

/// `percent` hundredths of `length`, rounded down.
pub open spec fn share(length: u32, percent: int) -> int {
    length * percent / 100
}

/// `percent` hundredths of `length`, rounded down.
fn percentage(length: u32, percent: u32) -> (part: u32)
    requires
        percent <= 100,
    ensures
        part == share(length, percent as int),
{
    assert((length as int) * (percent as int) <= 0xffff_ffff * 100) by (nonlinear_arith)
        requires
            0 <= length as int <= 0xffff_ffff,
            0 <= percent as int <= 100,
    ;
    assert((length as int) * (percent as int) / 100 <= length) by (nonlinear_arith)
        requires
            0 <= length as int,
            0 <= percent as int <= 100,
    ;
    ((length as u64) * (percent as u64) / 100) as u32
}

/// The top bar of a screen of the given size: the full width, and a tenth of the height.
pub open spec fn top_bar_of(width: u32, height: u32) -> Panel {
    Panel { x: 0, y: 0, width, height: share(height, 10) as u32 }
}

/// The battlefield: below the top bar, on seventy hundredths of the width, and as high
/// as the two bars leave.
pub open spec fn battlefield_of(width: u32, height: u32) -> Panel {
    Panel {
        x: 0,
        y: share(height, 10) as u32,
        width: share(width, 70) as u32,
        height: (height - 2 * share(height, 10)) as u32,
    }
}

/// The info panel: beside the battlefield, on fifteen hundredths of the width.
pub open spec fn info_panel_of(width: u32, height: u32) -> Panel {
    Panel {
        x: share(width, 70) as u32,
        y: share(height, 10) as u32,
        width: share(width, 15) as u32,
        height: (height - 2 * share(height, 10)) as u32,
    }
}

/// The bottom bar: the full width, and the last tenth of the height.
pub open spec fn bottom_bar_of(width: u32, height: u32) -> Panel {
    Panel {
        x: 0,
        y: (height - share(height, 10)) as u32,
        width,
        height: share(height, 10) as u32,
    }
}

/// Where the button of the ability at index `i` goes: the buttons stand one below the
/// other in the info panel, thirty-two high and thirty-six apart, four in from its edges.
pub open spec fn ability_bounds(width: u32, height: u32, i: int) -> Panel {
    Panel {
        x: (share(width, 70) + 4) as u32,
        y: (share(height, 10) + 4 + i * 36) as u32,
        width: (share(width, 15) - 8) as u32,
        height: 32,
    }
}

/// Where the button of the item at index `i` goes: the buttons stand side by side in
/// the bottom bar, thirty-two wide and thirty-six apart, four in from its edges.
pub open spec fn inventory_bounds(width: u32, height: u32, i: int) -> Panel {
    Panel {
        x: (4 + i * 36) as u32,
        y: (height - share(height, 10) + 4) as u32,
        width: 32,
        height: (share(height, 10) - 8) as u32,
    }
}

/// Whether the buttons can be laid out: the info panel and the bottom bar are large
/// enough for the margins of the buttons they hold, and every coordinate can be held
/// in a `u32`.
pub open spec fn layout_fits(width: u32, height: u32, abilities: nat, items: nat) -> bool {
    &&& abilities > 0 ==> {
        &&& share(width, 15) >= 8
        &&& share(width, 70) + 4 <= u32::MAX
        &&& share(height, 10) + 4 + (abilities - 1) * 36 <= u32::MAX
    }
    &&& items > 0 ==> {
        &&& share(height, 10) >= 8
        &&& 4 + (items - 1) * 36 <= u32::MAX
        &&& height - share(height, 10) + 4 <= u32::MAX
    }
}

/// The decimal digit for `d`.
pub open spec fn digit(d: nat) -> char {
    (48 + d) as char
}

/// The decimal digits of `n`, without sign, padding or separators.
pub open spec fn decimal_digits(n: nat) -> Seq<char>
    decreases n,
{
    if n < 10 {
        seq![digit(n)]
    } else {
        decimal_digits(n / 10).push(digit(n % 10))
    }
}

/// The decimal digit for `d`, as text.
fn digit_text(d: u32) -> (text: &'static str)
    requires
        d < 10,
    ensures
        text@ == seq![digit(d as nat)],
{
    proof {
        reveal_strlit("0");
        reveal_strlit("1");
        reveal_strlit("2");
        reveal_strlit("3");
        reveal_strlit("4");
        reveal_strlit("5");
        reveal_strlit("6");
        reveal_strlit("7");
        reveal_strlit("8");
        reveal_strlit("9");
    }
    let text = match d {
        0 => "0",
        1 => "1",
        2 => "2",
        3 => "3",
        4 => "4",
        5 => "5",
        6 => "6",
        7 => "7",
        8 => "8",
        _ => "9",
    };
    assert(text@ =~= seq![digit(d as nat)]);
    text
}

/// `value` in decimal digits, without sign, padding or separators.
pub fn decimal_text(value: u32) -> (text: String)
    ensures
        text@ == decimal_digits(value as nat),
    decreases value,
{
    if value < 10 {
        digit_text(value).to_owned()
    } else {
        let mut text = decimal_text(value / 10);
        text.append(digit_text(value % 10));
        assert(text@ =~= decimal_digits(value as nat));
        text
    }
}

/// The size of `value` without its sign.
pub open spec fn magnitude(value: i32) -> nat {
    if value < 0 {
        (-value) as nat
    } else {
        value as nat
    }
}

/// The draw call for a panel: its sprite is the translation of `key`.
pub open spec fn panel_call(loc: Localizer, key: Seq<char>, panel: Panel) -> DrawCallView {
    DrawCallView { sprite_id: loc.lookup(key), position: (panel.x, panel.y), frame_index: 0 }
}

/// The draw call for a button: its sprite is `prefix` followed by the button's id.
pub open spec fn button_call(prefix: Seq<char>, button: UiButton) -> DrawCallView {
    DrawCallView {
        sprite_id: prefix + button.id@,
        position: (button.bounds.x, button.bounds.y),
        frame_index: 0,
    }
}

/// The draw call for a floating text: its sprite is the translation of `float.heal` or
/// of `float.damage`, a colon, and the size of the value in decimal digits.
pub open spec fn float_call(loc: Localizer, text: FloatingText) -> DrawCallView {
    DrawCallView {
        sprite_id: loc.lookup(
            if text.is_heal {
                "float.heal"@
            } else {
                "float.damage"@
            },
        ) + ":"@ + decimal_digits(magnitude(text.value)),
        position: text.position,
        frame_index: 0,
    }
}

/// The draw calls for the four panels.
pub open spec fn panel_calls(ui: UiManager, loc: Localizer) -> Seq<DrawCallView> {
    seq![
        panel_call(loc, "panel.top_bar"@, ui.top_bar),
        panel_call(loc, "panel.battlefield"@, ui.battlefield),
        panel_call(loc, "panel.info_panel"@, ui.info_panel),
        panel_call(loc, "panel.bottom_bar"@, ui.bottom_bar),
    ]
}

/// The draw calls for the first `n` of `buttons`.
pub open spec fn button_calls(prefix: Seq<char>, buttons: Seq<UiButton>, n: int) -> Seq<DrawCallView> {
    Seq::new(n as nat, |i: int| button_call(prefix, buttons[i]))
}

/// The draw calls for the first `n` of `texts`.
pub open spec fn float_calls(loc: Localizer, texts: Seq<FloatingText>, n: int) -> Seq<DrawCallView> {
    Seq::new(n as nat, |i: int| float_call(loc, texts[i]))
}

/// All that the screen draws: the panels, the ability buttons, the inventory buttons
/// and the floating texts, in that order.
pub open spec fn ui_calls(ui: UiManager, loc: Localizer) -> Seq<DrawCallView> {
    panel_calls(ui, loc) + button_calls(
        "button:ability:"@,
        ui.ability_buttons@,
        ui.ability_buttons@.len() as int,
    ) + button_calls(
        "button:inventory:"@,
        ui.inventory_buttons@,
        ui.inventory_buttons@.len() as int,
    ) + float_calls(loc, ui.floating_texts@, ui.floating_texts@.len() as int)
}

/// Appends a call for the first frame of the sprite `sprite_id` at `position`.
fn push_call(renderer: &mut Renderer, sprite_id: String, position: (u32, u32))
    ensures
        final(renderer).calls() == old(renderer).calls().push(
            DrawCallView { sprite_id: sprite_id@, position, frame_index: 0 },
        ),
        final(renderer).width == old(renderer).width,
        final(renderer).height == old(renderer).height,
        final(renderer).sprites == old(renderer).sprites,
        final(renderer).sprite_textures == old(renderer).sprite_textures,
{
    renderer.draw_log.push(DrawCall { sprite_id, position, frame_index: 0 });
    assert(renderer.calls() =~= old(renderer).calls().push(
        DrawCallView { sprite_id: sprite_id@, position, frame_index: 0 },
    ));
}

/// The text `prefix` followed by `id`.
fn prefixed(prefix: &str, id: &String) -> (text: String)
    ensures
        text@ == prefix@ + id@,
{
    let mut text = prefix.to_owned();
    text.append(id.as_str());
    text
}

impl UiManager {
    /// The number of buttons of the tab that is open.
    pub open spec fn open_buttons(&self) -> Seq<UiButton> {
        match self.current_tab {
            UiTab::Abilities => self.ability_buttons@,
            UiTab::Inventory => self.inventory_buttons@,
        }
    }

    /// Where the selection stands after `action`: one up, but not above the first
    /// button; one down, but not below the last button of the open tab; or where it
    /// was.
    pub open spec fn selection_after(&self, action: GameAction) -> usize {
        match action {
            GameAction::SelectUp => if self.selected_index > 0 {
                (self.selected_index - 1) as usize
            } else {
                self.selected_index
            },
            GameAction::SelectDown => if self.selected_index + 1 < self.open_buttons().len() {
                (self.selected_index + 1) as usize
            } else {
                self.selected_index
            },
            GameAction::Activate => self.selected_index,
        }
    }

    /// What `action` asks for: activating presses the selected button of the open
    /// tab, if the selection stands on a button; nothing else asks for anything.
    pub open spec fn event_for(&self, action: GameAction) -> Option<UiEvent> {
        if action == GameAction::Activate && self.selected_index < self.open_buttons().len() {
            let id = self.open_buttons()[self.selected_index as int].id;
            match self.current_tab {
                UiTab::Abilities => Some(UiEvent::AbilityPressed(id)),
                UiTab::Inventory => Some(UiEvent::InventoryPressed(id)),
            }
        } else {
            None
        }
    }

    /// Lays out a screen of the given size with a button for each ability and each
    /// item. The abilities tab is open, and the selection stands on the first button.
    pub fn new(screen_width: u32, screen_height: u32, abilities: Vec<String>, items: Vec<String>) -> (ui:
        Self)
        requires
            layout_fits(screen_width, screen_height, abilities@.len(), items@.len()),
        ensures
            ui.top_bar == top_bar_of(screen_width, screen_height),
            ui.battlefield == battlefield_of(screen_width, screen_height),
            ui.info_panel == info_panel_of(screen_width, screen_height),
            ui.bottom_bar == bottom_bar_of(screen_width, screen_height),
            ui.ability_buttons@.len() == abilities@.len(),
            forall|i: int|
                0 <= i < abilities@.len() ==> ui.ability_buttons@[i] == (UiButton {
                    id: abilities@[i],
                    bounds: ability_bounds(screen_width, screen_height, i),
                }),
            ui.inventory_buttons@.len() == items@.len(),
            forall|i: int|
                0 <= i < items@.len() ==> ui.inventory_buttons@[i] == (UiButton {
                    id: items@[i],
                    bounds: inventory_bounds(screen_width, screen_height, i),
                }),
            ui.floating_texts@.len() == 0,
            ui.current_tab == UiTab::Abilities,
            ui.selected_index == 0,
    {
        let top_h = percentage(screen_height, 10);
        let bottom_h = top_h;
        let info_w = percentage(screen_width, 15);
        let battlefield_w = percentage(screen_width, 70);
        let battlefield_h = screen_height - top_h - bottom_h;
        let battlefield_x: u32 = 0;
        let info_x = battlefield_w;

        let mut ability_buttons: Vec<UiButton> = Vec::new();
        let mut k: usize = 0;
        while k < abilities.len()
            invariant
                k <= abilities@.len(),
                layout_fits(screen_width, screen_height, abilities@.len(), items@.len()),
                top_h == share(screen_height, 10),
                info_w == share(screen_width, 15),
                info_x == share(screen_width, 70),
                ability_buttons@.len() == k,
                forall|i: int|
                    0 <= i < k ==> ability_buttons@[i] == (UiButton {
                        id: abilities@[i],
                        bounds: ability_bounds(screen_width, screen_height, i),
                    }),
            decreases abilities@.len() - k,
        {
            assert(k * 36 <= (abilities@.len() - 1) * 36) by (nonlinear_arith)
                requires
                    k <= abilities@.len() - 1,
            ;
            let offset: u32 = (k as u32) * 36;
            ability_buttons.push(
                UiButton {
                    id: abilities[k].clone(),
                    bounds: Panel { x: info_x + 4, y: top_h + 4 + offset, width: info_w - 8, height: 32 },
                },
            );
            k += 1;
        }

        let mut inventory_buttons: Vec<UiButton> = Vec::new();
        let mut k: usize = 0;
        while k < items.len()
            invariant
                k <= items@.len(),
                layout_fits(screen_width, screen_height, abilities@.len(), items@.len()),
                bottom_h == share(screen_height, 10),
                bottom_h <= screen_height,
                inventory_buttons@.len() == k,
                forall|i: int|
                    0 <= i < k ==> inventory_buttons@[i] == (UiButton {
                        id: items@[i],
                        bounds: inventory_bounds(screen_width, screen_height, i),
                    }),
            decreases items@.len() - k,
        {
            assert(k * 36 <= (items@.len() - 1) * 36) by (nonlinear_arith)
                requires
                    k <= items@.len() - 1,
            ;
            let offset: u32 = (k as u32) * 36;
            inventory_buttons.push(
                UiButton {
                    id: items[k].clone(),
                    bounds: Panel {
                        x: 4 + offset,
                        y: screen_height - bottom_h + 4,
                        width: 32,
                        height: bottom_h - 8,
                    },
                },
            );
            k += 1;
        }

        UiManager {
            top_bar: Panel { x: 0, y: 0, width: screen_width, height: top_h },
            battlefield: Panel {
                x: battlefield_x,
                y: top_h,
                width: battlefield_w,
                height: battlefield_h,
            },
            info_panel: Panel { x: info_x, y: top_h, width: info_w, height: battlefield_h },
            bottom_bar: Panel {
                x: 0,
                y: screen_height - bottom_h,
                width: screen_width,
                height: bottom_h,
            },
            ability_buttons,
            inventory_buttons,
            floating_texts: Vec::new(),
            current_tab: UiTab::Abilities,
            selected_index: 0,
        }
    }

    /// Acts on `action`: moves the selection within the open tab, or presses the
    /// selected button and says which it was.
    pub fn handle_input(&mut self, action: GameAction) -> (event: Option<UiEvent>)
        ensures
            event == old(self).event_for(action),
            *final(self) == (UiManager {
                selected_index: old(self).selection_after(action),
                ..*old(self)
            }),
    {
        match action {
            GameAction::SelectUp => {
                if self.selected_index > 0 {
                    self.selected_index -= 1;
                }
                None
            },
            GameAction::SelectDown => {
                let len = match self.current_tab {
                    UiTab::Abilities => self.ability_buttons.len(),
                    UiTab::Inventory => self.inventory_buttons.len(),
                };
                if len > 0 && self.selected_index < len - 1 {
                    self.selected_index += 1;
                }
                None
            },
            GameAction::Activate => match self.current_tab {
                UiTab::Abilities => {
                    if self.selected_index < self.ability_buttons.len() {
                        Some(
                            UiEvent::AbilityPressed(
                                self.ability_buttons[self.selected_index].id.clone(),
                            ),
                        )
                    } else {
                        None
                    }
                },
                UiTab::Inventory => {
                    if self.selected_index < self.inventory_buttons.len() {
                        Some(
                            UiEvent::InventoryPressed(
                                self.inventory_buttons[self.selected_index].id.clone(),
                            ),
                        )
                    } else {
                        None
                    }
                },
            },
        }
    }

    /// Adds a floating text for `value` at `position`. A value above zero is a heal.
    pub fn spawn_floating_text(&mut self, value: i32, position: (u32, u32))
        ensures
            final(self).floating_texts@ == old(self).floating_texts@.push(
                FloatingText { value, position, is_heal: value > 0 },
            ),
            *final(self) == (UiManager { floating_texts: final(self).floating_texts, ..*old(self) }),
    {
        self.floating_texts.push(FloatingText { value, position, is_heal: value > 0 });
    }

    /// Appends to the draw log of `renderer` all that the screen draws: the panels,
    /// the ability buttons, the inventory buttons and the floating texts.
    pub fn render(&mut self, renderer: &mut Renderer, loc: &Localizer)
        ensures
            *final(self) == *old(self),
            final(renderer).calls() == old(renderer).calls() + ui_calls(*old(self), *loc),
            final(renderer).width == old(renderer).width,
            final(renderer).height == old(renderer).height,
            final(renderer).sprites == old(renderer).sprites,
            final(renderer).sprite_textures == old(renderer).sprite_textures,
    {
        push_call(renderer, loc.get("panel.top_bar"), (self.top_bar.x, self.top_bar.y));
        push_call(renderer, loc.get("panel.battlefield"), (self.battlefield.x, self.battlefield.y));
        push_call(renderer, loc.get("panel.info_panel"), (self.info_panel.x, self.info_panel.y));
        push_call(renderer, loc.get("panel.bottom_bar"), (self.bottom_bar.x, self.bottom_bar.y));
        let ghost drawn = old(renderer).calls() + panel_calls(*self, *loc);
        assert(renderer.calls() =~= drawn);

        let mut k: usize = 0;
        while k < self.ability_buttons.len()
            invariant
                k <= self.ability_buttons@.len(),
                renderer.calls() == drawn + button_calls(
                    "button:ability:"@,
                    self.ability_buttons@,
                    k as int,
                ),
                renderer.width == old(renderer).width,
                renderer.height == old(renderer).height,
                renderer.sprites == old(renderer).sprites,
                renderer.sprite_textures == old(renderer).sprite_textures,
            decreases self.ability_buttons@.len() - k,
        {
            let button = &self.ability_buttons[k];
            push_call(
                renderer,
                prefixed("button:ability:", &button.id),
                (button.bounds.x, button.bounds.y),
            );
            assert(renderer.calls() =~= drawn + button_calls(
                "button:ability:"@,
                self.ability_buttons@,
                k + 1,
            ));
            k += 1;
        }
        let ghost drawn = drawn + button_calls(
            "button:ability:"@,
            self.ability_buttons@,
            self.ability_buttons@.len() as int,
        );

        let mut k: usize = 0;
        assert(renderer.calls() =~= drawn + button_calls(
            "button:inventory:"@,
            self.inventory_buttons@,
            0,
        ));
        while k < self.inventory_buttons.len()
            invariant
                k <= self.inventory_buttons@.len(),
                renderer.calls() == drawn + button_calls(
                    "button:inventory:"@,
                    self.inventory_buttons@,
                    k as int,
                ),
                renderer.width == old(renderer).width,
                renderer.height == old(renderer).height,
                renderer.sprites == old(renderer).sprites,
                renderer.sprite_textures == old(renderer).sprite_textures,
            decreases self.inventory_buttons@.len() - k,
        {
            let button = &self.inventory_buttons[k];
            push_call(
                renderer,
                prefixed("button:inventory:", &button.id),
                (button.bounds.x, button.bounds.y),
            );
            assert(renderer.calls() =~= drawn + button_calls(
                "button:inventory:"@,
                self.inventory_buttons@,
                k + 1,
            ));
            k += 1;
        }
        let ghost drawn = drawn + button_calls(
            "button:inventory:"@,
            self.inventory_buttons@,
            self.inventory_buttons@.len() as int,
        );

        let mut k: usize = 0;
        assert(renderer.calls() =~= drawn + float_calls(*loc, self.floating_texts@, 0));
        while k < self.floating_texts.len()
            invariant
                k <= self.floating_texts@.len(),
                renderer.calls() == drawn + float_calls(*loc, self.floating_texts@, k as int),
                renderer.width == old(renderer).width,
                renderer.height == old(renderer).height,
                renderer.sprites == old(renderer).sprites,
                renderer.sprite_textures == old(renderer).sprite_textures,
            decreases self.floating_texts@.len() - k,
        {
            let text = &self.floating_texts[k];
            let size: u32 = if text.value < 0 {
                (-(text.value as i64)) as u32
            } else {
                text.value as u32
            };
            let mut sprite_id = if text.is_heal {
                loc.get("float.heal")
            } else {
                loc.get("float.damage")
            };
            sprite_id.append(":");
            let digits = decimal_text(size);
            sprite_id.append(digits.as_str());
            push_call(renderer, sprite_id, (text.position.0, text.position.1));
            assert(renderer.calls() =~= drawn + float_calls(*loc, self.floating_texts@, k + 1));
            k += 1;
        }
    }
}

} // verus!
