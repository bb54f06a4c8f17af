//! The named system colors and the native index of each.

use vstd::prelude::*;
use windows_sys::Win32::Graphics::Gdi;

verus! {

/// The system colors that can be asked for. More may be added later.
#[derive(Debug, Clone, Copy, PartialEq, Eq, PartialOrd, Ord, Hash, Structural)]
#[non_exhaustive]
pub enum SysColorIndex {
    /// The `ThreeDDarkShadow` color: the dark shadow of three-dimensional elements.
    ThreeDDarkShadow,
    /// The `ActiveBorder` color: the border of the active window.
    ActiveBorder,
    /// The `ActiveCaption` color: the title bar of the active window.
    ActiveCaption,
    /// The `AppWorkspace` color: the background of multiple-document applications.
    AppWorkspace,
    /// The `Background` color: the desktop.
    Background,
    /// The `ButtonFace` color: the face of three-dimensional elements.
    ButtonFace,
    /// The `ButtonHighlight` color: the highlight of three-dimensional elements.
    ButtonHighlight,
    /// The `ButtonShadow` color: the shadow of three-dimensional elements.
    ButtonShadow,
    /// The `ButtonText` color: the text on push buttons.
    ButtonText,
    /// The `CaptionText` color: the text in a title bar.
    CaptionText,
    /// The `GradientActiveCaption` color: the far end of the active title bar's gradient.
    GradientActiveCaption,
    /// The `GradientInactiveCaption` color: the far end of an inactive title bar's gradient.
    GradientInactiveCaption,
    /// The `GrayText` color: disabled text.
    GrayText,
    /// The `Highlight` color: the background of selected items.
    Highlight,
    /// The `HighlightText` color: the text of selected items.
    HighlightText,
    /// The `HotLight` color: a hyperlink or hot-tracked item.
    HotLight,
    /// The `InactiveBorder` color: the border of an inactive window.
    InactiveBorder,
    /// The `InactiveCaption` color: the title bar of an inactive window.
    InactiveCaption,
    /// The `InactiveCaptionText` color: the text in an inactive title bar.
    InactiveCaptionText,
    /// The `InfoBackground` color: the background of tooltips.
    InfoBackground,
    /// The `InfoText` color: the text of tooltips.
    InfoText,
    /// The `Menu` color: the background of menus.
    Menu,
    /// The `MenuText` color: the text in menus.
    MenuText,
    /// The `ScrollBar` color: the gray area of a scroll bar.
    ScrollBar,
    /// The `Window` color: the background of windows.
    Window,
    /// The `WindowFrame` color: the frame of windows.
    WindowFrame,
    /// The `WindowText` color: the text in windows.
    WindowText,
}

/// How many system colors are named.
pub const INDEX_COUNT: usize = 27;

impl SysColorIndex {
    /// The place of the color in the order of declaration, counted from zero.
    pub open spec fn position_of(self) -> int {
        match self {
            SysColorIndex::ThreeDDarkShadow => 0,
            SysColorIndex::ActiveBorder => 1,
            SysColorIndex::ActiveCaption => 2,
            SysColorIndex::AppWorkspace => 3,
            SysColorIndex::Background => 4,
            SysColorIndex::ButtonFace => 5,
            SysColorIndex::ButtonHighlight => 6,
            SysColorIndex::ButtonShadow => 7,
            SysColorIndex::ButtonText => 8,
            SysColorIndex::CaptionText => 9,
            SysColorIndex::GradientActiveCaption => 10,
            SysColorIndex::GradientInactiveCaption => 11,
            SysColorIndex::GrayText => 12,
            SysColorIndex::Highlight => 13,
            SysColorIndex::HighlightText => 14,
            SysColorIndex::HotLight => 15,
            SysColorIndex::InactiveBorder => 16,
            SysColorIndex::InactiveCaption => 17,
            SysColorIndex::InactiveCaptionText => 18,
            SysColorIndex::InfoBackground => 19,
            SysColorIndex::InfoText => 20,
            SysColorIndex::Menu => 21,
            SysColorIndex::MenuText => 22,
            SysColorIndex::ScrollBar => 23,
            SysColorIndex::Window => 24,
            SysColorIndex::WindowFrame => 25,
            SysColorIndex::WindowText => 26,
        }
    }

    /// The index by which the platform knows the color.
    pub open spec fn native_of(self) -> i32 {
        match self {
            SysColorIndex::ThreeDDarkShadow => 21,
            SysColorIndex::ActiveBorder => 10,
            SysColorIndex::ActiveCaption => 2,
            SysColorIndex::AppWorkspace => 12,
            SysColorIndex::Background => 1,
            SysColorIndex::ButtonFace => 15,
            SysColorIndex::ButtonHighlight => 20,
            SysColorIndex::ButtonShadow => 16,
            SysColorIndex::ButtonText => 18,
            SysColorIndex::CaptionText => 9,
            SysColorIndex::GradientActiveCaption => 27,
            SysColorIndex::GradientInactiveCaption => 28,
            SysColorIndex::GrayText => 17,
            SysColorIndex::Highlight => 13,
            SysColorIndex::HighlightText => 14,
            SysColorIndex::HotLight => 26,
            SysColorIndex::InactiveBorder => 11,
            SysColorIndex::InactiveCaption => 3,
            SysColorIndex::InactiveCaptionText => 19,
            SysColorIndex::InfoBackground => 24,
            SysColorIndex::InfoText => 23,
            SysColorIndex::Menu => 4,
            SysColorIndex::MenuText => 7,
            SysColorIndex::ScrollBar => 0,
            SysColorIndex::Window => 5,
            SysColorIndex::WindowFrame => 6,
            SysColorIndex::WindowText => 8,
        }
    }

    /// The place of the color in the order of declaration, counted from zero.
    pub fn position(self) -> (place: usize)
        ensures
            place == self.position_of(),
            place < INDEX_COUNT,
    {
        match self {
            SysColorIndex::ThreeDDarkShadow => 0,
            SysColorIndex::ActiveBorder => 1,
            SysColorIndex::ActiveCaption => 2,
            SysColorIndex::AppWorkspace => 3,
            SysColorIndex::Background => 4,
            SysColorIndex::ButtonFace => 5,
            SysColorIndex::ButtonHighlight => 6,
            SysColorIndex::ButtonShadow => 7,
            SysColorIndex::ButtonText => 8,
            SysColorIndex::CaptionText => 9,
            SysColorIndex::GradientActiveCaption => 10,
            SysColorIndex::GradientInactiveCaption => 11,
            SysColorIndex::GrayText => 12,
            SysColorIndex::Highlight => 13,
            SysColorIndex::HighlightText => 14,
            SysColorIndex::HotLight => 15,
            SysColorIndex::InactiveBorder => 16,
            SysColorIndex::InactiveCaption => 17,
            SysColorIndex::InactiveCaptionText => 18,
            SysColorIndex::InfoBackground => 19,
            SysColorIndex::InfoText => 20,
            SysColorIndex::Menu => 21,
            SysColorIndex::MenuText => 22,
            SysColorIndex::ScrollBar => 23,
            SysColorIndex::Window => 24,
            SysColorIndex::WindowFrame => 25,
            SysColorIndex::WindowText => 26,
        }
    }

    /// The index by which the platform knows the color.
    pub fn native(self) -> (native: i32)
        ensures
            native == self.native_of(),
    {
        let table = native_constants();
        let place = self.position();
        proof {
            lemma_table_holds_native(self);
        }
        table[place]
    }
}

/// The platform's color indices, in the order in which the colors are declared.
pub open spec fn native_table() -> Seq<i32> {
    seq![
        21i32, 10, 2, 12, 1, 15, 20, 16, 18, 9, 27, 28, 17, 13, 14, 26, 11, 3, 19, 24, 23, 4, 7, 0, 5,
        6, 8,
    ]
}

/// The `COLOR_*` constants of `windows_sys::Win32::Graphics::Gdi`, one for each
/// named color, in the order of declaration. The contract repeats the values
/// that the constants are defined with; nothing checks them against the crate.
#[verifier::external_body]
fn native_constants() -> (table: [i32; INDEX_COUNT])
    ensures
        table@ == native_table(),
{
    [
        Gdi::COLOR_3DDKSHADOW, Gdi::COLOR_ACTIVEBORDER, Gdi::COLOR_ACTIVECAPTION,
        Gdi::COLOR_APPWORKSPACE, Gdi::COLOR_BACKGROUND, Gdi::COLOR_BTNFACE,
        Gdi::COLOR_BTNHIGHLIGHT, Gdi::COLOR_BTNSHADOW, Gdi::COLOR_BTNTEXT,
        Gdi::COLOR_CAPTIONTEXT, Gdi::COLOR_GRADIENTACTIVECAPTION, Gdi::COLOR_GRADIENTINACTIVECAPTION,
        Gdi::COLOR_GRAYTEXT, Gdi::COLOR_HIGHLIGHT, Gdi::COLOR_HIGHLIGHTTEXT,
        Gdi::COLOR_HOTLIGHT, Gdi::COLOR_INACTIVEBORDER, Gdi::COLOR_INACTIVECAPTION,
        Gdi::COLOR_INACTIVECAPTIONTEXT, Gdi::COLOR_INFOBK, Gdi::COLOR_INFOTEXT,
        Gdi::COLOR_MENU, Gdi::COLOR_MENUTEXT, Gdi::COLOR_SCROLLBAR,
        Gdi::COLOR_WINDOW, Gdi::COLOR_WINDOWFRAME, Gdi::COLOR_WINDOWTEXT,
    ]
}

/// The table holds, at the place of each color, that color's native index.
pub proof fn lemma_table_holds_native(index: SysColorIndex)
    ensures
        0 <= index.position_of() < native_table().len() == INDEX_COUNT,
        native_table()[index.position_of()] == index.native_of(),
{
}

/// No two colors share a place.
pub proof fn lemma_position_is_one_to_one(a: SysColorIndex, b: SysColorIndex)
    requires
        a.position_of() == b.position_of(),
    ensures
        a == b,
{
}

/// No two colors share a native index.
pub proof fn lemma_native_is_one_to_one(a: SysColorIndex, b: SysColorIndex)
    requires
        a.native_of() == b.native_of(),
    ensures
        a == b,
{
}

} // verus!
