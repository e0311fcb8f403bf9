//! Scene identifiers: the (NPC, partner) pair that names a scene. The order
//! matters: (a, b) and (b, a) are different scenes.

use vstd::prelude::*;
use crate::emotion::scene::Scene;

verus! {

/// A scene, by its NPC and its partner.
#[derive(Debug, Clone, PartialEq, Eq, Hash)]
pub struct SceneId {
    pub npc_id: String,
    pub partner_id: String,
}

/// The display form of a scene id: `npc↔partner`.
pub open spec fn scene_id_text(id: SceneId) -> Seq<char> {
    id.npc_id@ + "↔"@ + id.partner_id@
}

impl SceneId {
    pub fn new(npc_id: &str, partner_id: &str) -> (r: SceneId)
        ensures
            r.npc_id@ == npc_id@,
            r.partner_id@ == partner_id@,
    {
        SceneId { npc_id: npc_id.to_owned(), partner_id: partner_id.to_owned() }
    }

    /// The id of `scene`: its NPC and its partner.
    pub fn of_scene(scene: &Scene) -> (r: SceneId)
        ensures
            r.npc_id@ == scene.npc_id_spec(),
            r.partner_id@ == scene.partner_id_spec(),
    {
        SceneId { npc_id: scene.npc_id().to_owned(), partner_id: scene.partner_id().to_owned() }
    }

    /// The display form, `npc↔partner`.
    pub fn to_string(&self) -> (r: String)
        ensures
            r@ == scene_id_text(*self),
    {
        let mut s = String::from_str(self.npc_id.as_str());
        s.append("↔");
        s.append(self.partner_id.as_str());
        s
    }
}

impl From<&Scene> for SceneId {
    fn from(scene: &Scene) -> (r: SceneId)
        ensures
            r.npc_id@ == scene.npc_id_spec(),
            r.partner_id@ == scene.partner_id_spec(),
    {
        SceneId::of_scene(scene)
    }
}

impl vstd::std_specs::convert::FromSpecImpl<&Scene> for SceneId {
    /// `from` itself states the result (the scene's two ids); this
    /// generic description is not used.
    open spec fn obeys_from_spec() -> bool {
        false
    }

    open spec fn from_spec(v: &Scene) -> SceneId {
        choose|id: SceneId| id.npc_id@ == v.npc_id_spec() && id.partner_id@ == v.partner_id_spec()
    }
}

} // verus!
