use vstd::prelude::*;

verus! {

/// The root font size, in pixels, that one rem stands for.
pub const REM_PX: u32 = 16;

/// A length in thousandths of a rem.
#[derive(Clone, Copy, Debug, PartialEq, Eq, Structural)]
pub struct Rems {
    pub milli: u32,
}

/// The size of UI text, relative to the user's UI scale.
#[derive(Clone, Copy, Debug, PartialEq, Eq, Structural)]
pub enum UiTextSize {
    /// `14px` at the default scale of `1rem` = `16px`.
    Default,
    /// `16px` at the default scale of `1rem` = `16px`.
    Large,
    /// `12px` at the default scale of `1rem` = `16px`.
    Small,
    /// `10px` at the default scale of `1rem` = `16px`.
    XSmall,
}

impl Default for UiTextSize {
    fn default() -> (r: Self)
        ensures
            r == UiTextSize::Default,
    {
        UiTextSize::Default
    }
}

impl UiTextSize {
    /// The size in pixels at the default scale.
    pub open spec fn spec_px(self) -> u32 {
        match self {
            UiTextSize::Large => 16,
            UiTextSize::Default => 14,
            UiTextSize::Small => 12,
            UiTextSize::XSmall => 10,
        }
    }

    /// The size in pixels at the default scale.
    pub fn px(self) -> (r: u32)
        ensures
            r == self.spec_px(),
    {
        match self {
            UiTextSize::Large => 16,
            UiTextSize::Default => 14,
            UiTextSize::Small => 12,
            UiTextSize::XSmall => 10,
        }
    }

    /// The size in rems: its pixel size over the pixels of one rem.
    pub fn rems(self) -> (r: Rems)
        ensures
            r.milli * REM_PX == self.spec_px() * 1000,
    {
        let px = self.px();
        Rems { milli: px * 1000 / REM_PX }
    }
}

/// The size of a [`Headline`], on the Major Second scale.
#[derive(Clone, Copy, Debug, PartialEq, Eq, Structural, Hash)]
pub enum HeadlineSize {
    XSmall,
    Small,
    Medium,
    Large,
    XLarge,
}

impl Default for HeadlineSize {
    fn default() -> (r: Self)
        ensures
            r == HeadlineSize::Medium,
    {
        HeadlineSize::Medium
    }
}

impl HeadlineSize {
    /// The font size in thousandths of a rem.
    pub open spec fn spec_size(self) -> u32 {
        match self {
            HeadlineSize::XSmall => 880,
            HeadlineSize::Small => 1000,
            HeadlineSize::Medium => 1125,
            HeadlineSize::Large => 1270,
            HeadlineSize::XLarge => 1430,
        }
    }

    /// The font size.
    pub fn size(self) -> (r: Rems)
        ensures
            r.milli == self.spec_size(),
    {
        let milli: u32 = match self {
            HeadlineSize::XSmall => 880,
            HeadlineSize::Small => 1000,
            HeadlineSize::Medium => 1125,
            HeadlineSize::Large => 1270,
            HeadlineSize::XLarge => 1430,
        };
        Rems { milli }
    }

    /// The line height, the same at every size.
    pub fn line_height(self) -> (r: Rems)
        ensures
            r.milli == 1600,
    {
        Rems { milli: 1600 }
    }
}

/// A line of headline text.
#[derive(Clone, Debug)]
pub struct Headline {
    pub size: HeadlineSize,
    pub text: String,
}

impl Headline {
    /// A headline of the default size.
    pub fn new(text: String) -> (r: Self)
        ensures
            r.size == HeadlineSize::Medium,
            r.text@ == text@,
    {
        Headline { size: HeadlineSize::Medium, text }
    }

    pub fn size(self, size: HeadlineSize) -> (r: Self)
        ensures
            r.size == size,
            r.text@ == self.text@,
    {
        Headline { size, text: self.text }
    }
}

} // verus!
