//! Recipes: which series, and which episodes of which seasons, to download.
use std::collections::HashMap;
use vstd::prelude::*;

verus! {

/// The episodes chosen, and those left out, in one season of a recipe.
#[derive(Debug, Clone)]
pub struct Season {
    pub episodes: Vec<u32>,
    pub exclude: Vec<u32>,
}

/// A recipe: the series to download and its seasons by number.
#[derive(Debug)]
pub struct Recipe {
    pub series_id: u64,
    pub seasons: HashMap<u32, Season>,
}

/// What a recipe is: its series and its seasons by number.
pub struct RecipeView {
    pub series_id: u64,
    pub seasons: Map<u32, Season>,
}

impl View for Recipe {
    type V = RecipeView;

    open spec fn view(&self) -> RecipeView {
        RecipeView { series_id: self.series_id, seasons: self.seasons@ }
    }
}

impl Recipe {
    /// The empty recipe: series 0, no seasons.
    pub fn new() -> (recipe: Recipe)
        ensures
            recipe@ == (RecipeView { series_id: 0, seasons: Map::empty() }),
    {
        Recipe { series_id: 0, seasons: HashMap::new() }
    }
}

impl Clone for Recipe {
    fn clone(&self) -> (copy: Recipe)
        ensures
            copy@ == self@,
    {
        Recipe { series_id: self.series_id, seasons: self.seasons.clone() }
    }
}

/// Why a recipe file could not be loaded.
#[derive(Debug)]
pub enum ParseError {
    FailedToOpenFile { file: String, error_type: String },
    FailedToReadFile { file: String, error_type: String },
    FailedToParseJSON { error_type: String },
}

/// A `ParseError` with its texts taken as character sequences.
pub enum ParseErrorView {
    FailedToOpenFile { file: Seq<char>, error_type: Seq<char> },
    FailedToReadFile { file: Seq<char>, error_type: Seq<char> },
    FailedToParseJSON { error_type: Seq<char> },
}

impl View for ParseError {
    type V = ParseErrorView;

    open spec fn view(&self) -> ParseErrorView {
        match self {
            ParseError::FailedToOpenFile { file, error_type } => ParseErrorView::FailedToOpenFile {
                file: file@,
                error_type: error_type@,
            },
            ParseError::FailedToReadFile { file, error_type } => ParseErrorView::FailedToReadFile {
                file: file@,
                error_type: error_type@,
            },
            ParseError::FailedToParseJSON { error_type } => ParseErrorView::FailedToParseJSON {
                error_type: error_type@,
            },
        }
    }
}

/// The text that describes a recipe error to the user.
pub open spec fn parse_error_text(e: ParseErrorView) -> Seq<char> {
    match e {
        ParseErrorView::FailedToOpenFile { file, error_type } => "Failed to open \""@ + file
            + "\", error: "@ + error_type + "."@,
        ParseErrorView::FailedToReadFile { file, error_type } => "Failed to read \""@ + file
            + "\", error: "@ + error_type + "."@,
        ParseErrorView::FailedToParseJSON { error_type } => "Failed to parse Recipe JSON, error: "@
            + error_type + "."@,
    }
}

impl Clone for ParseError {
    fn clone(&self) -> (copy: ParseError)
        ensures
            copy@ == self@,
    {
        match self {
            ParseError::FailedToOpenFile { file, error_type } => ParseError::FailedToOpenFile {
                file: file.clone(),
                error_type: error_type.clone(),
            },
            ParseError::FailedToReadFile { file, error_type } => ParseError::FailedToReadFile {
                file: file.clone(),
                error_type: error_type.clone(),
            },
            ParseError::FailedToParseJSON { error_type } => ParseError::FailedToParseJSON {
                error_type: error_type.clone(),
            },
        }
    }
}

impl ParseError {
    /// The text that describes this error to the user.
    pub fn message(&self) -> (text: String)
        ensures
            text@ == parse_error_text(self@),
    {
        match self {
            ParseError::FailedToOpenFile { file, error_type } => {
                let mut text = String::from_str("Failed to open \"");
                text.append(file.as_str());
                text.append("\", error: ");
                text.append(error_type.as_str());
                text.append(".");
                text
            },
            ParseError::FailedToReadFile { file, error_type } => {
                let mut text = String::from_str("Failed to read \"");
                text.append(file.as_str());
                text.append("\", error: ");
                text.append(error_type.as_str());
                text.append(".");
                text
            },
            ParseError::FailedToParseJSON { error_type } => {
                let mut text = String::from_str("Failed to parse Recipe JSON, error: ");
                text.append(error_type.as_str());
                text.append(".");
                text
            },
        }
    }
}

} // verus!
