//! The parts that the graphical front end is assembled from, as far as they
//! are data: what a card, a dialog or a toolbar is to show.

use vstd::prelude::*;
use crate::gui::Rgba;
use crate::size_text::{decimal_text, digit_char, push_decimal};

verus! {

/// A card that shows one figure.
#[derive(Debug, Clone)]
pub struct StatusCard {
    /// What the figure is.
    pub title: String,
    /// The figure.
    pub value: String,
    /// The sign shown beside it.
    pub icon: String,
    /// The colour of the sign.
    pub color: Rgba,
}

impl StatusCard {
    /// A card with the given title, figure, sign and colour.
    pub fn new(title: &str, value: &str, icon: &str, color: Rgba) -> (card: StatusCard)
        ensures
            card.title@ == title@,
            card.value@ == value@,
            card.icon@ == icon@,
            card.color == color,
    {
        StatusCard {
            title: String::from_str(title),
            value: String::from_str(value),
            icon: String::from_str(icon),
            color,
        }
    }
}

/// A question to the user with two answers.
#[derive(Debug, Clone, Copy)]
pub struct ConfirmationDialog<'a> {
    /// The title of the dialog.
    pub title: &'a str,
    /// The question.
    pub message: &'a str,
    /// The words on the button that confirms.
    pub confirm_text: &'a str,
    /// The words on the button that declines.
    pub cancel_text: &'a str,
    /// Whether confirming is dangerous and the button is to warn of it.
    pub danger: bool,
}

impl<'a> ConfirmationDialog<'a> {
    /// A dialog with the buttons `OK` and `Cancel`.
    pub fn new(title: &'a str, message: &'a str) -> (dialog: ConfirmationDialog<'a>)
        ensures
            dialog.title@ == title@,
            dialog.message@ == message@,
            dialog.confirm_text@ == "OK"@,
            dialog.cancel_text@ == "Cancel"@,
            !dialog.danger,
    {
        ConfirmationDialog { title, message, confirm_text: "OK", cancel_text: "Cancel", danger: false }
    }

    /// The dialog with other words on its buttons.
    pub fn buttons(self, confirm: &'a str, cancel: &'a str) -> (dialog: ConfirmationDialog<'a>)
        ensures
            dialog.title@ == self.title@,
            dialog.message@ == self.message@,
            dialog.confirm_text@ == confirm@,
            dialog.cancel_text@ == cancel@,
            dialog.danger == self.danger,
    {
        ConfirmationDialog {
            title: self.title,
            message: self.message,
            confirm_text: confirm,
            cancel_text: cancel,
            danger: self.danger,
        }
    }

    /// The dialog marked as dangerous.
    pub fn danger(self) -> (dialog: ConfirmationDialog<'a>)
        ensures
            dialog.title@ == self.title@,
            dialog.message@ == self.message@,
            dialog.confirm_text@ == self.confirm_text@,
            dialog.cancel_text@ == self.cancel_text@,
            dialog.danger,
    {
        ConfirmationDialog {
            title: self.title,
            message: self.message,
            confirm_text: self.confirm_text,
            cancel_text: self.cancel_text,
            danger: true,
        }
    }
}

/// One item of a toolbar.
#[derive(Debug, Clone, Copy)]
pub enum ToolbarAction<'a> {
    /// A button.
    Button {
        /// The words on it.
        text: &'a str,
        /// The sign in front of the words.
        icon: Option<&'a str>,
        /// Whether it can be pressed.
        enabled: bool,
        /// What is shown when the pointer rests on it.
        tooltip: Option<&'a str>,
    },
    /// A line between groups of buttons.
    Separator,
}

impl<'a> ToolbarAction<'a> {
    /// A button that can be pressed, without sign or tooltip.
    pub fn button(text: &'a str) -> (action: ToolbarAction<'a>)
        ensures
            action matches ToolbarAction::Button { text: t, icon, enabled, tooltip } && t@
                == text@ && icon is None && enabled && tooltip is None,
    {
        ToolbarAction::Button { text, icon: None, enabled: true, tooltip: None }
    }

    /// The button with the sign `icon`. A separator stays as it is.
    pub fn icon(self, icon: &'a str) -> (action: ToolbarAction<'a>)
        ensures
            self is Separator ==> action is Separator,
            self matches ToolbarAction::Button { text, enabled, tooltip, .. } ==> action
                == (ToolbarAction::Button { text, icon: Some(icon), enabled, tooltip }),
    {
        match self {
            ToolbarAction::Button { text, icon: _, enabled, tooltip } => ToolbarAction::Button {
                text,
                icon: Some(icon),
                enabled,
                tooltip,
            },
            ToolbarAction::Separator => ToolbarAction::Separator,
        }
    }

    /// The button made pressable or not. A separator stays as it is.
    pub fn enabled(self, enabled: bool) -> (action: ToolbarAction<'a>)
        ensures
            self is Separator ==> action is Separator,
            self matches ToolbarAction::Button { text, icon, tooltip, .. } ==> action
                == (ToolbarAction::Button { text, icon, enabled, tooltip }),
    {
        match self {
            ToolbarAction::Button { text, icon, enabled: _, tooltip } => ToolbarAction::Button {
                text,
                icon,
                enabled,
                tooltip,
            },
            ToolbarAction::Separator => ToolbarAction::Separator,
        }
    }

    /// The button with the tooltip `tooltip`. A separator stays as it is.
    pub fn tooltip(self, tooltip: &'a str) -> (action: ToolbarAction<'a>)
        ensures
            self is Separator ==> action is Separator,
            self matches ToolbarAction::Button { text, icon, enabled, .. } ==> action
                == (ToolbarAction::Button { text, icon, enabled, tooltip: Some(tooltip) }),
    {
        match self {
            ToolbarAction::Button { text, icon, enabled, tooltip: _ } => ToolbarAction::Button {
                text,
                icon,
                enabled,
                tooltip: Some(tooltip),
            },
            ToolbarAction::Separator => ToolbarAction::Separator,
        }
    }

    /// A separator.
    pub fn separator() -> (action: ToolbarAction<'a>)
        ensures
            action is Separator,
    {
        ToolbarAction::Separator
    }

    /// The words on a button: its sign, if it has one, a blank, and its
    /// text.
    pub open spec fn label(self) -> Seq<char> {
        match self {
            ToolbarAction::Button { text, icon, .. } => match icon {
                Some(sign) => sign@ + " "@ + text@,
                None => text@,
            },
            ToolbarAction::Separator => Seq::empty(),
        }
    }

    /// The words on a button.
    pub fn button_text(&self) -> (text: String)
        ensures
            text@ == self.label(),
    {
        match self {
            ToolbarAction::Button { text, icon, .. } => match icon {
                Some(sign) => String::from_str(sign).concat(" ").concat(text),
                None => String::from_str(text),
            },
            ToolbarAction::Separator => String::new(),
        }
    }
}

/// A row of buttons and separators.
#[derive(Debug)]
pub struct Toolbar<'a> {
    /// The items, from left to right.
    pub actions: Vec<ToolbarAction<'a>>,
}

impl<'a> Toolbar<'a> {
    /// An empty toolbar.
    pub fn new() -> (toolbar: Toolbar<'a>)
        ensures
            toolbar.actions@ == Seq::<ToolbarAction<'a>>::empty(),
    {
        Toolbar { actions: Vec::new() }
    }

    /// The toolbar with `action` added at its right end.
    pub fn action(self, action: ToolbarAction<'a>) -> (toolbar: Toolbar<'a>)
        ensures
            toolbar.actions@ == self.actions@.push(action),
    {
        let mut actions = self.actions;
        actions.push(action);
        Toolbar { actions }
    }
}

impl<'a> Default for Toolbar<'a> {
    fn default() -> (toolbar: Toolbar<'a>)
        ensures
            toolbar.actions@ == Seq::<ToolbarAction<'a>>::empty(),
    {
        Toolbar::new()
    }
}

/// A bar that shows how far something has come. Progress is counted in
/// thousandths: 0 is nothing, 1000 is all.
#[derive(Debug, Clone)]
pub struct ProgressIndicator {
    /// The progress in thousandths, at most 1000.
    pub progress: u16,
    /// Words to show in place of the percentage.
    pub text: Option<String>,
    /// Whether the percentage is shown when there are no words.
    pub show_percentage: bool,
}

/// `thousandths` held to the range from nothing to all.
pub open spec fn clamped_progress(thousandths: i32) -> u16 {
    if thousandths < 0 {
        0
    } else if thousandths > 1000 {
        1000
    } else {
        thousandths as u16
    }
}

/// Progress as a percentage with one decimal: 750 thousandths are `75.0%`.
pub open spec fn percentage_text(progress: u16) -> Seq<char> {
    decimal_text((progress / 10) as nat).push('.').push(digit_char((progress % 10) as int)).push(
        '%',
    )
}

impl ProgressIndicator {
    /// An indicator at `thousandths`, held to the range from 0 to 1000, that
    /// shows its percentage.
    pub fn new(thousandths: i32) -> (indicator: ProgressIndicator)
        ensures
            indicator.progress == clamped_progress(thousandths),
            indicator.text is None,
            indicator.show_percentage,
    {
        let progress: u16 = if thousandths < 0 {
            0
        } else if thousandths > 1000 {
            1000
        } else {
            thousandths as u16
        };
        ProgressIndicator { progress, text: None, show_percentage: true }
    }

    /// The indicator with words in place of the percentage.
    pub fn text(self, text: &str) -> (indicator: ProgressIndicator)
        ensures
            indicator.progress == self.progress,
            indicator.text matches Some(t) && t@ == text@,
            indicator.show_percentage == self.show_percentage,
    {
        ProgressIndicator {
            progress: self.progress,
            text: Some(String::from_str(text)),
            show_percentage: self.show_percentage,
        }
    }

    /// The indicator without percentage.
    pub fn hide_percentage(self) -> (indicator: ProgressIndicator)
        ensures
            indicator.progress == self.progress,
            indicator.text == self.text,
            !indicator.show_percentage,
    {
        ProgressIndicator { progress: self.progress, text: self.text, show_percentage: false }
    }

    /// What is written on the bar: the words, if there are any; else the
    /// percentage, if it is shown; else nothing.
    pub open spec fn label(self) -> Seq<char> {
        match self.text {
            Some(words) => words@,
            None => if self.show_percentage {
                percentage_text(self.progress)
            } else {
                Seq::empty()
            },
        }
    }

    /// What is written on the bar.
    pub fn overlay_text(&self) -> (label: String)
        ensures
            label@ == self.label(),
    {
        match &self.text {
            Some(words) => words.clone(),
            None => {
                if self.show_percentage {
                    let mut label = String::new();
                    push_decimal(&mut label, (self.progress / 10) as u128);
                    label.append(".");
                    push_decimal(&mut label, (self.progress % 10) as u128);
                    label.append("%");
                    proof {
                        reveal_strlit(".");
                        reveal_strlit("%");
                        assert(decimal_text((self.progress % 10) as nat) =~= seq![
                            digit_char((self.progress % 10) as int),
                        ]);
                        assert("."@ =~= seq!['.']);
                        assert("%"@ =~= seq!['%']);
                        assert(label@ =~= percentage_text(self.progress));
                    }
                    label
                } else {
                    String::new()
                }
            },
        }
    }

    /// The colour of the bar: green when all is done, blue before.
    pub fn bar_color(&self) -> (c: Rgba)
        ensures
            c == if self.progress >= 1000 {
                Rgba::spec_rgb(40, 180, 40)
            } else {
                Rgba::spec_rgb(70, 130, 200)
            },
    {
        if self.progress >= 1000 {
            Rgba::rgb(40, 180, 40)
        } else {
            Rgba::rgb(70, 130, 200)
        }
    }

    /// Whether the writing on the bar is light: once the bar is more than
    /// half full.
    pub fn writes_light(&self) -> (r: bool)
        ensures
            r == (self.progress > 500),
    {
        self.progress > 500
    }
}

} // verus!
