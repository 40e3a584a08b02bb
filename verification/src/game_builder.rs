//! The game-building tool: the parts of a game description that stand on
//! their own, the checks a description must pass, and what the tool
//! answers.

use vstd::prelude::*;

use crate::event::{ToolOutcome, ToolOutcomeView};

verus! {

/// The name under which the tool is offered to the model.
pub const TOOL_NAME: &'static str = "generate_phaser_game";

/// What the model is told of the tool.
pub const TOOL_DESCRIPTION: &'static str =
    "Generate a complete Phaser 3 game configuration as structured JSON. Use this tool when the user asks you to create or modify a browser-based game. Define the game using structured configuration including game settings, objects, physics, and interactions. Use placeholder graphics (rectangles, circles) by specifying shape properties instead of texture assets. The frontend will render this configuration into a playable game.";

/// The background colour of a game that names none.
pub const DEFAULT_BG_COLOR: &'static str = "#87CEEB";

/// The complaint about a game without scenes.
pub const NO_SCENES: &'static str = "Game must have at least one scene";

/// The complaint about a game without width or without height.
pub const NO_EXTENT: &'static str = "Game dimensions must be greater than 0";

/// What precedes the complaint in the message of an invalid configuration.
pub const INVALID_CONFIGURATION: &'static str = "Invalid game configuration: ";

/// What precedes the cause in the message of a failed serialisation.
pub const SERIALIZATION_ERROR: &'static str = "Serialization error: ";

/// Why the tool gave no game.
#[derive(Debug, Clone, PartialEq, Eq)]
pub enum GameBuilderError {
    InvalidConfiguration(String),
    SerializationError(String),
}

/// The mathematical content of a [`GameBuilderError`].
pub enum GameBuilderErrorView {
    InvalidConfiguration(Seq<char>),
    SerializationError(Seq<char>),
}

impl View for GameBuilderError {
    type V = GameBuilderErrorView;

    open spec fn view(&self) -> GameBuilderErrorView {
        match self {
            GameBuilderError::InvalidConfiguration(complaint) => {
                GameBuilderErrorView::InvalidConfiguration(complaint@)
            },
            GameBuilderError::SerializationError(cause) => {
                GameBuilderErrorView::SerializationError(cause@)
            },
        }
    }
}

impl GameBuilderError {
    /// The words in which an error is reported.
    pub open spec fn text(error: GameBuilderErrorView) -> Seq<char> {
        match error {
            GameBuilderErrorView::InvalidConfiguration(complaint) => INVALID_CONFIGURATION@
                + complaint,
            GameBuilderErrorView::SerializationError(cause) => SERIALIZATION_ERROR@ + cause,
        }
    }

    /// The words in which this error is reported.
    pub fn message(&self) -> (words: String)
        ensures
            words@ == Self::text(self@),
    {
        match self {
            GameBuilderError::InvalidConfiguration(complaint) => {
                let mut words = String::from_str(INVALID_CONFIGURATION);
                words.append(complaint.as_str());
                words
            },
            GameBuilderError::SerializationError(cause) => {
                let mut words = String::from_str(SERIALIZATION_ERROR);
                words.append(cause.as_str());
                words
            },
        }
    }
}

/// Asset types.
#[derive(Debug, Clone, Copy, PartialEq, Eq, Structural)]
pub enum AssetType {
    Sprite,
    Audio,
    Image,
}

/// Game asset definition.
#[derive(Debug, Clone, PartialEq, Eq)]
pub struct Asset {
    /// Unique identifier for this asset.
    pub key: String,
    /// Type of asset.
    pub asset_type: AssetType,
    /// URL or path to the asset.
    pub url: String,
}

/// Physics body types.
#[derive(Debug, Clone, Copy, PartialEq, Eq, Structural)]
pub enum PhysicsBody {
    Dynamic,
    Static,
    /// The object takes no part in physics.
    Bodiless,
}

/// Object types.
#[derive(Debug, Clone, Copy, PartialEq, Eq, Structural)]
pub enum ObjectType {
    Sprite,
    Rectangle,
    Circle,
    Text,
    Emoji,
    Group,
}

/// Text-specific properties.
#[derive(Debug, Clone, PartialEq, Eq)]
pub struct TextProperties {
    /// Text content.
    pub text: String,
    /// Font size, such as `32px`.
    pub font_size: Option<String>,
    /// Text colour.
    pub fill: Option<String>,
}

/// Collision box shape types.
#[derive(Debug, Clone, Copy, PartialEq, Eq, Structural)]
pub enum CollisionBoxShape {
    Rectangle,
    Circle,
}

/// Behavior types for characters that move by themselves.
#[derive(Debug, Clone, Copy, PartialEq, Eq, Structural)]
pub enum BehaviorType {
    Patrol,
    Follow,
    Static,
    Random,
}

/// Action effect types.
#[derive(Debug, Clone, PartialEq, Eq)]
pub enum ActionEffect {
    /// Update the score.
    UpdateScore { points: i32 },
    /// End the game.
    GameOver,
    /// Destroy the object.
    Destroy,
    /// Update text content.
    UpdateText { object_id: String, text: String },
}

/// Action definition.
#[derive(Debug, Clone, PartialEq, Eq)]
pub struct ActionDefinition {
    /// Action name to reference in callbacks.
    pub name: String,
    /// The effect this action performs.
    pub effect: ActionEffect,
}

/// What the tool's checks read of a game description.
#[derive(Debug, Clone, Copy, PartialEq, Eq, Structural)]
pub struct SpecOutline {
    /// How many scenes the game has.
    pub scenes: usize,
    /// The width of the canvas, in pixels.
    pub width: u32,
    /// The height of the canvas, in pixels.
    pub height: u32,
}

/// How the tool is presented to the model.
#[derive(Debug, Clone, PartialEq, Eq)]
pub struct ToolDescription {
    pub name: String,
    pub description: String,
    /// The JSON schema of the tool's arguments, as a JSON text.
    pub parameters: String,
}

/// Tool for generating Phaser games.
#[derive(Debug, Clone, Copy, PartialEq, Eq)]
pub struct PhaserGameTool;

impl PhaserGameTool {
    /// What is wrong with a game description, if anything is. The scenes
    /// are looked at first, then the extent of the canvas.
    pub open spec fn complaint(outline: SpecOutline) -> Option<Seq<char>> {
        if outline.scenes == 0 {
            Some(NO_SCENES@)
        } else if outline.width == 0 || outline.height == 0 {
            Some(NO_EXTENT@)
        } else {
            None
        }
    }

    /// What the tool answers for a game description with this outline,
    /// where `rendered` is the description as a JSON text, or the reason
    /// for which it could not be written as one.
    pub open spec fn answer(
        outline: SpecOutline,
        rendered: Result<Seq<char>, Seq<char>>,
    ) -> Result<Seq<char>, GameBuilderErrorView> {
        match Self::complaint(outline) {
            Some(complaint) => Err(GameBuilderErrorView::InvalidConfiguration(complaint)),
            None => match rendered {
                Ok(text) => Ok(text),
                Err(cause) => Err(GameBuilderErrorView::SerializationError(cause)),
            },
        }
    }

    /// How the tool is presented to the model, given the schema of its
    /// arguments.
    pub fn definition(&self, parameters: String) -> (definition: ToolDescription)
        ensures
            definition.name@ == TOOL_NAME@,
            definition.description@ == TOOL_DESCRIPTION@,
            definition.parameters@ == parameters@,
    {
        ToolDescription {
            name: String::from_str(TOOL_NAME),
            description: String::from_str(TOOL_DESCRIPTION),
            parameters,
        }
    }

    /// Checks a game description.
    pub fn check(&self, outline: SpecOutline) -> (result: Result<(), GameBuilderError>)
        ensures
            match result {
                Ok(_) => Self::complaint(outline) is None,
                Err(error) => Self::complaint(outline) == Some(error@->InvalidConfiguration_0)
                    && error is InvalidConfiguration,
            },
    {
        if outline.scenes == 0 {
            return Err(GameBuilderError::InvalidConfiguration(String::from_str(NO_SCENES)));
        }
        if outline.width == 0 || outline.height == 0 {
            return Err(GameBuilderError::InvalidConfiguration(String::from_str(NO_EXTENT)));
        }
        Ok(())
    }

    /// Runs the tool on a game description: a description that passes the
    /// checks is answered with its JSON text.
    pub fn call(&self, outline: SpecOutline, rendered: Result<String, String>) -> (result: Result<
        String,
        GameBuilderError,
    >)
        ensures
            match result {
                Ok(text) => Self::answer(outline, rendered_view(rendered)) == Ok::<
                    Seq<char>,
                    GameBuilderErrorView,
                >(text@),
                Err(error) => Self::answer(outline, rendered_view(rendered)) == Err::<
                    Seq<char>,
                    GameBuilderErrorView,
                >(error@),
            },
    {
        match self.check(outline) {
            Err(error) => Err(error),
            Ok(_) => match rendered {
                Ok(text) => Ok(text),
                Err(cause) => Err(GameBuilderError::SerializationError(cause)),
            },
        }
    }
}

/// The content of a rendering, or of the reason for which there is none.
pub open spec fn rendered_view(rendered: Result<String, String>) -> Result<Seq<char>, Seq<char>> {
    match rendered {
        Ok(text) => Ok(text@),
        Err(cause) => Err(cause@),
    }
}

/// What a tool's answer is to the run: the game on success, the error's
/// words on failure.
pub open spec fn outcome_of(answer: Result<Seq<char>, GameBuilderErrorView>) -> ToolOutcomeView {
    match answer {
        Ok(text) => ToolOutcomeView::Success(text),
        Err(error) => ToolOutcomeView::Failure(GameBuilderError::text(error)),
    }
}

/// Turns the tool's answer into the outcome that the run is told.
pub fn tool_outcome(answer: Result<String, GameBuilderError>) -> (outcome: ToolOutcome)
    ensures
        outcome@ == outcome_of(
            match answer {
                Ok(text) => Ok(text@),
                Err(error) => Err(error@),
            },
        ),
{
    match answer {
        Ok(text) => ToolOutcome::Success(text),
        Err(error) => ToolOutcome::Failure(error.message()),
    }
}

/// Create an instance of the Phaser game tool.
pub fn create_phaser_game_tool() -> (tool: PhaserGameTool)
    ensures
        tool == PhaserGameTool,
{
    PhaserGameTool
}

/// The background colour of a game that names none.
pub fn default_bg_color() -> (color: String)
    ensures
        color@ == DEFAULT_BG_COLOR@,
{
    String::from_str(DEFAULT_BG_COLOR)
}

} // verus!
