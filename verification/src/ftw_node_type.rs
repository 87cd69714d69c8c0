use crate::util::str_eq;
use vstd::prelude::*;

verus! {

/// Closed enumeration of engine scene-node base kinds; a generated
/// class inherits one of these.
#[derive(Clone, Copy, Debug, PartialEq, Eq, Structural)]
pub enum FtwNodeType {
    Node,
    Node2D,
    Spatial,
    Area,
    Area2D,
    Camera,
    Camera2D,
    Control,
    KinematicBody,
    KinematicBody2D,
    Label,
    RigidBody,
    RigidBody2D,
    Sprite,
    Timer,
}

/// What parsing a piece of text as a node type yields: each recognised
/// kind is selected by its own name; anything else falls back to
/// `Node`, never an error.
pub open spec fn spec_parse_node_type(s: Seq<char>) -> FtwNodeType {
    if s == "Node"@ {
        FtwNodeType::Node
    } else if s == "Node2D"@ {
        FtwNodeType::Node2D
    } else if s == "Spatial"@ {
        FtwNodeType::Spatial
    } else if s == "Area"@ {
        FtwNodeType::Area
    } else if s == "Area2D"@ {
        FtwNodeType::Area2D
    } else if s == "Camera"@ {
        FtwNodeType::Camera
    } else if s == "Camera2D"@ {
        FtwNodeType::Camera2D
    } else if s == "Control"@ {
        FtwNodeType::Control
    } else if s == "KinematicBody"@ {
        FtwNodeType::KinematicBody
    } else if s == "KinematicBody2D"@ {
        FtwNodeType::KinematicBody2D
    } else if s == "Label"@ {
        FtwNodeType::Label
    } else if s == "RigidBody"@ {
        FtwNodeType::RigidBody
    } else if s == "RigidBody2D"@ {
        FtwNodeType::RigidBody2D
    } else if s == "Sprite"@ {
        FtwNodeType::Sprite
    } else if s == "Timer"@ {
        FtwNodeType::Timer
    } else {
        FtwNodeType::Node
    }
}

/// Whether the text is one of the recognised node-kind names.
pub open spec fn is_node_type_keyword(s: Seq<char>) -> bool {
    ||| s == "Node"@
    ||| s == "Node2D"@
    ||| s == "Spatial"@
    ||| s == "Area"@
    ||| s == "Area2D"@
    ||| s == "Camera"@
    ||| s == "Camera2D"@
    ||| s == "Control"@
    ||| s == "KinematicBody"@
    ||| s == "KinematicBody2D"@
    ||| s == "Label"@
    ||| s == "RigidBody"@
    ||| s == "RigidBody2D"@
    ||| s == "Sprite"@
    ||| s == "Timer"@
}

impl FtwNodeType {
    /// Total parse with fallback: unrecognised text yields `Node`.
    pub fn parse(s: &str) -> (t: FtwNodeType)
        ensures
            t == spec_parse_node_type(s@),
    {
        if str_eq(s, "Node") {
            FtwNodeType::Node
        } else if str_eq(s, "Node2D") {
            FtwNodeType::Node2D
        } else if str_eq(s, "Spatial") {
            FtwNodeType::Spatial
        } else if str_eq(s, "Area") {
            FtwNodeType::Area
        } else if str_eq(s, "Area2D") {
            FtwNodeType::Area2D
        } else if str_eq(s, "Camera") {
            FtwNodeType::Camera
        } else if str_eq(s, "Camera2D") {
            FtwNodeType::Camera2D
        } else if str_eq(s, "Control") {
            FtwNodeType::Control
        } else if str_eq(s, "KinematicBody") {
            FtwNodeType::KinematicBody
        } else if str_eq(s, "KinematicBody2D") {
            FtwNodeType::KinematicBody2D
        } else if str_eq(s, "Label") {
            FtwNodeType::Label
        } else if str_eq(s, "RigidBody") {
            FtwNodeType::RigidBody
        } else if str_eq(s, "RigidBody2D") {
            FtwNodeType::RigidBody2D
        } else if str_eq(s, "Sprite") {
            FtwNodeType::Sprite
        } else if str_eq(s, "Timer") {
            FtwNodeType::Timer
        } else {
            FtwNodeType::Node
        }
    }

    /// The engine's name for this kind, used as the parent class in
    /// generated boilerplate.
    pub fn name(&self) -> (r: String)
        ensures
            r@ == self.spec_name(),
    {
        match self {
            FtwNodeType::Node => "Node".to_owned(),
            FtwNodeType::Node2D => "Node2D".to_owned(),
            FtwNodeType::Spatial => "Spatial".to_owned(),
            FtwNodeType::Area => "Area".to_owned(),
            FtwNodeType::Area2D => "Area2D".to_owned(),
            FtwNodeType::Camera => "Camera".to_owned(),
            FtwNodeType::Camera2D => "Camera2D".to_owned(),
            FtwNodeType::Control => "Control".to_owned(),
            FtwNodeType::KinematicBody => "KinematicBody".to_owned(),
            FtwNodeType::KinematicBody2D => "KinematicBody2D".to_owned(),
            FtwNodeType::Label => "Label".to_owned(),
            FtwNodeType::RigidBody => "RigidBody".to_owned(),
            FtwNodeType::RigidBody2D => "RigidBody2D".to_owned(),
            FtwNodeType::Sprite => "Sprite".to_owned(),
            FtwNodeType::Timer => "Timer".to_owned(),
        }
    }

    /// Spec-level name of this kind.
    pub open spec fn spec_name(&self) -> Seq<char> {
        match self {
            FtwNodeType::Node => "Node"@,
            FtwNodeType::Node2D => "Node2D"@,
            FtwNodeType::Spatial => "Spatial"@,
            FtwNodeType::Area => "Area"@,
            FtwNodeType::Area2D => "Area2D"@,
            FtwNodeType::Camera => "Camera"@,
            FtwNodeType::Camera2D => "Camera2D"@,
            FtwNodeType::Control => "Control"@,
            FtwNodeType::KinematicBody => "KinematicBody"@,
            FtwNodeType::KinematicBody2D => "KinematicBody2D"@,
            FtwNodeType::Label => "Label"@,
            FtwNodeType::RigidBody => "RigidBody"@,
            FtwNodeType::RigidBody2D => "RigidBody2D"@,
            FtwNodeType::Sprite => "Sprite"@,
            FtwNodeType::Timer => "Timer"@,
        }
    }
}

impl Default for FtwNodeType {
    /// The documented fallback kind.
    fn default() -> (t: FtwNodeType)
        ensures
            t == FtwNodeType::Node,
    {
        FtwNodeType::Node
    }
}

/// Parsing a node type never fails: text that matches no recognised
/// kind resolves to the documented default, `Node`.
pub proof fn lemma_parse_node_type_fallback(s: Seq<char>)
    ensures
        !is_node_type_keyword(s) ==> spec_parse_node_type(s) == FtwNodeType::Node,
{
}

} // verus!
