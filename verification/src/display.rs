//! The text of the label that shows the tool in hand.

use vstd::prelude::*;
use vstd::string::StringExecFns;
use crate::sprite::{AnimatedSprite, ToolAction};

verus! {

/// The name under which the label shows a tool.
pub open spec fn tool_name(action: ToolAction) -> Seq<char> {
    match action {
        ToolAction::Chop => "Chop"@,
        ToolAction::Hoe => "Hoe"@,
        ToolAction::Water => "Water"@,
        ToolAction::NoTool => "None"@,
    }
}

/// The text of the label for a tool: its name behind `Action: `.
pub open spec fn label_text(action: ToolAction) -> Seq<char> {
    "Action: "@ + tool_name(action)
}

impl ToolAction {
    /// The name under which the label shows this tool.
    pub fn name(&self) -> (name: &'static str)
        ensures
            name@ == tool_name(*self),
    {
        match self {
            ToolAction::Chop => "Chop",
            ToolAction::Hoe => "Hoe",
            ToolAction::Water => "Water",
            ToolAction::NoTool => "None",
        }
    }
}

/// The text that the tool label is to show for this character.
pub fn update_tool_display(animated: &AnimatedSprite) -> (text: String)
    ensures
        text@ == label_text(animated.action),
{
    let mut text = String::from_str("Action: ");
    text.append(animated.action.name());
    text
}

} // verus!
