//! The render selector: what is to be drawn for a given state.
//!
//! Nothing is drawn here. The selector answers with intents (texts and an
//! outlined frame, with their places, sizes and colours on a canvas of 800 by
//! 600) and leaves the pixels to whoever consumes them.

use vstd::prelude::*;
use crate::decimal::{decimal, decimal_string};

verus! {

/// What the window shows.
#[derive(Clone, Copy, PartialEq, Eq, Debug, Structural)]
pub enum DisplayMode {
    /// No drag, no words: the prompt.
    Idle,
    /// So many drags are under way: the drag feedback.
    Dragging(usize),
    /// No drag, and words to read: the current word and the speed.
    Playing,
}

/// The mode that a drag counter and a number of words make: a drag goes
/// before everything else, and without words nothing plays.
pub open spec fn mode_of(drag_count: nat, word_count: nat) -> DisplayMode {
    if drag_count > 0 {
        DisplayMode::Dragging(drag_count as usize)
    } else if word_count == 0 {
        DisplayMode::Idle
    } else {
        DisplayMode::Playing
    }
}

/// Derives the mode from the drag counter and the number of words.
pub fn display_mode(drag_count: usize, word_count: usize) -> (mode: DisplayMode)
    ensures
        mode == mode_of(drag_count as nat, word_count as nat),
{
    if drag_count > 0 {
        DisplayMode::Dragging(drag_count)
    } else if word_count == 0 {
        DisplayMode::Idle
    } else {
        DisplayMode::Playing
    }
}

/// Without words nothing plays, whatever the drag counter says; and
/// whatever the words, a drag under way is what shows.
pub proof fn lemma_mode_of(drag_count: nat, word_count: nat)
    ensures
        word_count == 0 ==> !(mode_of(drag_count, word_count) is Playing),
        drag_count == 0 && word_count == 0 ==> mode_of(drag_count, word_count) is Idle,
        drag_count == 0 && word_count > 0 ==> mode_of(drag_count, word_count) is Playing,
        drag_count > 0 <==> mode_of(drag_count, word_count) is Dragging,
{
}

/// The colours that the selector uses.
#[derive(Clone, Copy, PartialEq, Eq, Debug, Structural)]
pub enum Color {
    White,
    Orange,
    Gray,
}

/// The point of a text that is put at its position.
#[derive(Clone, Copy, PartialEq, Eq, Debug, Structural)]
pub enum Anchor {
    /// The middle of the text.
    Center,
    /// The middle of its left edge.
    MiddleLeft,
}

/// Horizontal middle of the canvas.
pub const CENTER_X: u32 = 400;

/// Vertical middle of the canvas.
pub const CENTER_Y: u32 = 300;

/// Size of the prompt, of the drag feedback and of the current word.
pub const TEXT_SIZE: u32 = 30;

/// Size of the speed readout.
pub const READOUT_SIZE: u32 = 24;

/// Distance of the speed readout from the left and from the top.
pub const READOUT_MARGIN: u32 = 25;

/// Distance of the drag frame from the edges of the canvas.
pub const FRAME_MARGIN: u32 = 10;

/// Width of the drag frame.
pub const FRAME_WIDTH: u32 = 780;

/// Height of the drag frame.
pub const FRAME_HEIGHT: u32 = 580;

/// Width of the drag frame's outline.
pub const FRAME_STROKE: u32 = 6;

/// A text to draw.
#[derive(Clone, PartialEq, Eq, Debug)]
pub struct TextDraw {
    pub content: String,
    pub color: Color,
    pub size: u32,
    pub anchor: Anchor,
    pub x: u32,
    pub y: u32,
}

/// The outline of a rectangle to draw.
#[derive(Clone, Copy, PartialEq, Eq, Debug, Structural)]
pub struct FrameDraw {
    pub x: u32,
    pub y: u32,
    pub width: u32,
    pub height: u32,
    pub stroke: u32,
    pub color: Color,
}

/// One thing to draw.
#[derive(Clone, PartialEq, Eq, Debug)]
pub enum DrawIntent {
    Text(TextDraw),
    Frame(FrameDraw),
}

/// A [`TextDraw`] with its content as a sequence of characters.
pub struct TextDrawModel {
    pub content: Seq<char>,
    pub color: Color,
    pub size: u32,
    pub anchor: Anchor,
    pub x: u32,
    pub y: u32,
}

/// A [`DrawIntent`] with its content as a sequence of characters.
pub enum DrawIntentModel {
    Text(TextDrawModel),
    Frame(FrameDraw),
}

impl DeepView for TextDraw {
    type V = TextDrawModel;

    open spec fn deep_view(&self) -> TextDrawModel {
        TextDrawModel {
            content: self.content@,
            color: self.color,
            size: self.size,
            anchor: self.anchor,
            x: self.x,
            y: self.y,
        }
    }
}

impl DeepView for DrawIntent {
    type V = DrawIntentModel;

    open spec fn deep_view(&self) -> DrawIntentModel {
        match self {
            DrawIntent::Text(text) => DrawIntentModel::Text(text.deep_view()),
            DrawIntent::Frame(frame) => DrawIntentModel::Frame(*frame),
        }
    }
}

/// The instruction shown while there is nothing to read.
pub open spec fn prompt_text() -> Seq<char> {
    "Перетащите сюда текстовый файл"@
}

/// The report of `count` drags under way.
pub open spec fn drag_text(count: nat) -> Seq<char> {
    "Вы перетаскиваете "@ + decimal(count) + " файл"@
}

/// The readout of `speed` words per minute.
pub open spec fn speed_text(speed: nat) -> Seq<char> {
    decimal(speed) + " слов в минуту"@
}

/// A text of the usual size, centred on the canvas.
pub open spec fn centered_text(content: Seq<char>, color: Color) -> DrawIntentModel {
    DrawIntentModel::Text(
        TextDrawModel {
            content,
            color,
            size: TEXT_SIZE,
            anchor: Anchor::Center,
            x: CENTER_X,
            y: CENTER_Y,
        },
    )
}

/// The speed readout, in the upper left corner.
pub open spec fn speed_readout(speed: nat) -> DrawIntentModel {
    DrawIntentModel::Text(
        TextDrawModel {
            content: speed_text(speed),
            color: Color::Orange,
            size: READOUT_SIZE,
            anchor: Anchor::MiddleLeft,
            x: READOUT_MARGIN,
            y: READOUT_MARGIN,
        },
    )
}

/// The frame that lights up while a file is dragged over the window.
pub open spec fn drag_frame() -> DrawIntentModel {
    DrawIntentModel::Frame(
        FrameDraw {
            x: FRAME_MARGIN,
            y: FRAME_MARGIN,
            width: FRAME_WIDTH,
            height: FRAME_HEIGHT,
            stroke: FRAME_STROKE,
            color: Color::White,
        },
    )
}

/// What is drawn in `mode`, in drawing order. `word` and `speed` count only
/// while playing.
pub open spec fn intents_of(mode: DisplayMode, word: Seq<char>, speed: nat) -> Seq<
    DrawIntentModel,
> {
    match mode {
        DisplayMode::Idle => seq![centered_text(prompt_text(), Color::Orange)],
        DisplayMode::Dragging(count) => seq![
            drag_frame(),
            centered_text(drag_text(count as nat), Color::Gray),
        ],
        DisplayMode::Playing => seq![centered_text(word, Color::White), speed_readout(speed)],
    }
}

fn make_centered(content: String, color: Color) -> (intent: DrawIntent)
    ensures
        intent.deep_view() == centered_text(content@, color),
{
    DrawIntent::Text(
        TextDraw {
            content,
            color,
            size: TEXT_SIZE,
            anchor: Anchor::Center,
            x: CENTER_X,
            y: CENTER_Y,
        },
    )
}

/// Selects what is to be drawn in `mode`; `word` is the current word and
/// `speed` the speed in words per minute, which count only while playing.
pub fn select_intents(mode: DisplayMode, word: &str, speed: u64) -> (intents: Vec<DrawIntent>)
    ensures
        intents.deep_view() == intents_of(mode, word@, speed as nat),
{
    let mut intents: Vec<DrawIntent> = Vec::new();
    match mode {
        DisplayMode::Idle => {
            let prompt = "Перетащите сюда текстовый файл".to_owned();
            intents.push(make_centered(prompt, Color::Orange));
        },
        DisplayMode::Dragging(count) => {
            intents.push(
                DrawIntent::Frame(
                    FrameDraw {
                        x: FRAME_MARGIN,
                        y: FRAME_MARGIN,
                        width: FRAME_WIDTH,
                        height: FRAME_HEIGHT,
                        stroke: FRAME_STROKE,
                        color: Color::White,
                    },
                ),
            );
            let mut label = "Вы перетаскиваете ".to_owned();
            let digits = decimal_string(count as u64);
            label.append(digits.as_str());
            label.append(" файл");
            intents.push(make_centered(label, Color::Gray));
        },
        DisplayMode::Playing => {
            intents.push(make_centered(word.to_owned(), Color::White));
            let mut label = decimal_string(speed);
            label.append(" слов в минуту");
            intents.push(
                DrawIntent::Text(
                    TextDraw {
                        content: label,
                        color: Color::Orange,
                        size: READOUT_SIZE,
                        anchor: Anchor::MiddleLeft,
                        x: READOUT_MARGIN,
                        y: READOUT_MARGIN,
                    },
                ),
            );
        },
    }
    assert(intents.deep_view() =~= intents_of(mode, word@, speed as nat));
    intents
}

} // verus!
