//! The nine-slice buttons of the menus: their styles and textures.

use vstd::prelude::*;

verus! {

/// The look of a menu button.
#[derive(Clone, Copy, Debug, PartialEq, Eq, Structural)]
pub enum ButtonStyle {
    BigBlue,
    BigRed,
    SmallBlueRound,
    SmallRedRound,
    SmallBlueSquare,
    SmallRedSquare,
}

impl Default for ButtonStyle {
    fn default() -> (s: ButtonStyle)
        ensures
            s == ButtonStyle::BigBlue,
    {
        ButtonStyle::BigBlue
    }
}

/// The file name stem of a style's texture.
pub open spec fn style_stem(style: ButtonStyle) -> Seq<char> {
    match style {
        ButtonStyle::BigBlue => "BigBlueButton"@,
        ButtonStyle::BigRed => "BigRedButton"@,
        ButtonStyle::SmallBlueRound => "SmallBlueRoundButton"@,
        ButtonStyle::SmallRedRound => "SmallRedRoundButton"@,
        ButtonStyle::SmallBlueSquare => "SmallBlueSquareButton"@,
        ButtonStyle::SmallRedSquare => "SmallRedSquareButton"@,
    }
}

/// The directory the button textures are in.
pub open spec fn button_dir() -> Seq<char> {
    "UI Elements/UI Elements/Buttons/"@
}

impl ButtonStyle {
    /// Whether the style is one of the big buttons.
    pub fn is_big(&self) -> (r: bool)
        ensures
            r == (*self == ButtonStyle::BigBlue || *self == ButtonStyle::BigRed),
    {
        match self {
            ButtonStyle::BigBlue | ButtonStyle::BigRed => true,
            _ => false,
        }
    }

    /// The texture of the button at rest.
    pub fn regular_texture(&self) -> (r: &'static str)
        ensures
            r@ == button_dir() + style_stem(*self) + "_Regular.png"@,
    {
        proof {
            reveal_strlit("UI Elements/UI Elements/Buttons/");
            reveal_strlit("_Regular.png");
        }
        match self {
            ButtonStyle::BigBlue => {
                proof {
                    reveal_strlit("BigBlueButton");
                    reveal_strlit("UI Elements/UI Elements/Buttons/BigBlueButton_Regular.png");
                }
                let r = "UI Elements/UI Elements/Buttons/BigBlueButton_Regular.png";
                assert(r@ =~= button_dir() + style_stem(*self) + "_Regular.png"@);
                r
            },
            ButtonStyle::BigRed => {
                proof {
                    reveal_strlit("BigRedButton");
                    reveal_strlit("UI Elements/UI Elements/Buttons/BigRedButton_Regular.png");
                }
                let r = "UI Elements/UI Elements/Buttons/BigRedButton_Regular.png";
                assert(r@ =~= button_dir() + style_stem(*self) + "_Regular.png"@);
                r
            },
            ButtonStyle::SmallBlueRound => {
                proof {
                    reveal_strlit("SmallBlueRoundButton");
                    reveal_strlit("UI Elements/UI Elements/Buttons/SmallBlueRoundButton_Regular.png");
                }
                let r = "UI Elements/UI Elements/Buttons/SmallBlueRoundButton_Regular.png";
                assert(r@ =~= button_dir() + style_stem(*self) + "_Regular.png"@);
                r
            },
            ButtonStyle::SmallRedRound => {
                proof {
                    reveal_strlit("SmallRedRoundButton");
                    reveal_strlit("UI Elements/UI Elements/Buttons/SmallRedRoundButton_Regular.png");
                }
                let r = "UI Elements/UI Elements/Buttons/SmallRedRoundButton_Regular.png";
                assert(r@ =~= button_dir() + style_stem(*self) + "_Regular.png"@);
                r
            },
            ButtonStyle::SmallBlueSquare => {
                proof {
                    reveal_strlit("SmallBlueSquareButton");
                    reveal_strlit("UI Elements/UI Elements/Buttons/SmallBlueSquareButton_Regular.png");
                }
                let r = "UI Elements/UI Elements/Buttons/SmallBlueSquareButton_Regular.png";
                assert(r@ =~= button_dir() + style_stem(*self) + "_Regular.png"@);
                r
            },
            ButtonStyle::SmallRedSquare => {
                proof {
                    reveal_strlit("SmallRedSquareButton");
                    reveal_strlit("UI Elements/UI Elements/Buttons/SmallRedSquareButton_Regular.png");
                }
                let r = "UI Elements/UI Elements/Buttons/SmallRedSquareButton_Regular.png";
                assert(r@ =~= button_dir() + style_stem(*self) + "_Regular.png"@);
                r
            },
        }
    }

    /// The texture of the pressed button.
    pub fn pressed_texture(&self) -> (r: &'static str)
        ensures
            r@ == button_dir() + style_stem(*self) + "_Pressed.png"@,
    {
        proof {
            reveal_strlit("UI Elements/UI Elements/Buttons/");
            reveal_strlit("_Pressed.png");
        }
        match self {
            ButtonStyle::BigBlue => {
                proof {
                    reveal_strlit("BigBlueButton");
                    reveal_strlit("UI Elements/UI Elements/Buttons/BigBlueButton_Pressed.png");
                }
                let r = "UI Elements/UI Elements/Buttons/BigBlueButton_Pressed.png";
                assert(r@ =~= button_dir() + style_stem(*self) + "_Pressed.png"@);
                r
            },
            ButtonStyle::BigRed => {
                proof {
                    reveal_strlit("BigRedButton");
                    reveal_strlit("UI Elements/UI Elements/Buttons/BigRedButton_Pressed.png");
                }
                let r = "UI Elements/UI Elements/Buttons/BigRedButton_Pressed.png";
                assert(r@ =~= button_dir() + style_stem(*self) + "_Pressed.png"@);
                r
            },
            ButtonStyle::SmallBlueRound => {
                proof {
                    reveal_strlit("SmallBlueRoundButton");
                    reveal_strlit("UI Elements/UI Elements/Buttons/SmallBlueRoundButton_Pressed.png");
                }
                let r = "UI Elements/UI Elements/Buttons/SmallBlueRoundButton_Pressed.png";
                assert(r@ =~= button_dir() + style_stem(*self) + "_Pressed.png"@);
                r
            },
            ButtonStyle::SmallRedRound => {
                proof {
                    reveal_strlit("SmallRedRoundButton");
                    reveal_strlit("UI Elements/UI Elements/Buttons/SmallRedRoundButton_Pressed.png");
                }
                let r = "UI Elements/UI Elements/Buttons/SmallRedRoundButton_Pressed.png";
                assert(r@ =~= button_dir() + style_stem(*self) + "_Pressed.png"@);
                r
            },
            ButtonStyle::SmallBlueSquare => {
                proof {
                    reveal_strlit("SmallBlueSquareButton");
                    reveal_strlit("UI Elements/UI Elements/Buttons/SmallBlueSquareButton_Pressed.png");
                }
                let r = "UI Elements/UI Elements/Buttons/SmallBlueSquareButton_Pressed.png";
                assert(r@ =~= button_dir() + style_stem(*self) + "_Pressed.png"@);
                r
            },
            ButtonStyle::SmallRedSquare => {
                proof {
                    reveal_strlit("SmallRedSquareButton");
                    reveal_strlit("UI Elements/UI Elements/Buttons/SmallRedSquareButton_Pressed.png");
                }
                let r = "UI Elements/UI Elements/Buttons/SmallRedSquareButton_Pressed.png";
                assert(r@ =~= button_dir() + style_stem(*self) + "_Pressed.png"@);
                r
            },
        }
    }
}

} // verus!
