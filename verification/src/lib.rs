//! Verified core of a top-down RPG character toolkit: facing directions, directional sprite
//! selection, follower trails, acceleration and the small state machines that drive them.
//! Engine objects stay with the caller; these types hold the state and make the decisions.
pub mod avatar;
pub mod cardinal;
pub mod character_sprite;
pub mod directional_sprite;
pub mod npc;
pub mod util;
pub mod warp;

pub use avatar::follower::{Follower, FollowerSet};
pub use avatar::interact::InteractionRound;
pub use avatar::{RpgCharacter2d, SpriteStep};
pub use cardinal::RpgDirection;
pub use character_sprite::animation_resume::{Playback, PlaybackMemory};
pub use character_sprite::rolling_value::RollingValue;
pub use character_sprite::sprite_directions::{AnimationSwitch, SpriteDirections};
pub use character_sprite::{CharacterSprite2d, SpriteWatch};
pub use directional_sprite::DirectionalSprite2D;
pub use npc::StaticNpc2d;
pub use util::AvatarSearch;
pub use warp::TransitionCache;
