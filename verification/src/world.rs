//! The world: the entities of a scene, numbered in the order in which they
//! were spawned, and what the render layers say about who draws what.

use crate::entity::{Body, Entity, EntityView};
use crate::layers::Layers;
use vstd::prelude::*;

verus! {

/// The layer of an entity that has no tag and no camera to take one from.
pub const DEFAULT_LAYER: usize = 0;

/// The members of `ids` below `n`, in ascending order.
pub open spec fn ascending(ids: Set<usize>, n: nat) -> Seq<usize>
    decreases n,
{
    if n == 0 {
        Seq::<usize>::empty()
    } else {
        let before = ascending(ids, (n - 1) as nat);
        if ids.contains((n - 1) as usize) {
            before.push((n - 1) as usize)
        } else {
            before
        }
    }
}

/// `ascending(ids, n)` holds exactly the members of `ids` below `n`, each
/// once and the smaller before the larger.
pub proof fn lemma_ascending(ids: Set<usize>, n: nat)
    requires
        n <= usize::MAX + 1,
    ensures
        ascending(ids, n).len() <= n,
        forall|id: usize| #[trigger]
            ascending(ids, n).contains(id) <==> ids.contains(id) && id < n,
        forall|i: int, j: int|
            0 <= i < j < ascending(ids, n).len() ==> #[trigger] ascending(ids, n)[i]
                < #[trigger] ascending(ids, n)[j],
    decreases n,
{
    if n > 0 {
        let before = ascending(ids, (n - 1) as nat);
        let all = ascending(ids, n);
        let last = (n - 1) as usize;
        lemma_ascending(ids, (n - 1) as nat);
        assert forall|id: usize| #[trigger] all.contains(id) <==> ids.contains(id) && id < n by {
            if all.contains(id) {
                let i = choose|i: int| 0 <= i < all.len() && all[i] == id;
                if i < before.len() {
                    assert(before[i] == id);
                    assert(before.contains(id));
                }
            }
            if ids.contains(id) && id < n {
                if id == last {
                    assert(all[all.len() - 1] == id);
                } else {
                    assert(before.contains(id));
                    let i = choose|i: int| 0 <= i < before.len() && before[i] == id;
                    assert(all[i] == id);
                }
            }
        }
        assert forall|i: int, j: int| 0 <= i < j < all.len() implies #[trigger] all[i]
            < #[trigger] all[j] by {
            if j == before.len() {
                assert(before.contains(before[i]));
            }
        }
    }
}

/// The entities that carry the interface-camera marker.
pub open spec fn ui_camera_set(w: Seq<EntityView>) -> Set<usize> {
    Set::new(|id: usize| id < w.len() && w[id as int].camera_ui)
}

/// The numbers of the entities that carry the interface-camera marker, in
/// ascending order.
pub open spec fn ui_cameras(w: Seq<EntityView>) -> Seq<usize> {
    ascending(ui_camera_set(w), w.len())
}

/// The top of the interface tree that entity `id` is in: the entity reached by
/// following `parent` for as long as it names an earlier entity.
pub open spec fn root_of(w: Seq<EntityView>, id: usize) -> usize
    decreases id,
{
    if id < w.len() {
        match w[id as int].parent {
            Some(p) => if p < id {
                root_of(w, p)
            } else {
                id
            },
            None => id,
        }
    } else {
        id
    }
}

/// The camera that draws interface node `id`: the one that the top of its tree
/// targets. `None` when `id` is no interface node, or the top of its tree
/// targets nothing or something that is no camera.
pub open spec fn ui_camera_of(w: Seq<EntityView>, id: usize) -> Option<usize> {
    if id < w.len() && w[id as int].body.is_ui() {
        match w[root_of(w, id) as int].target_camera {
            Some(c) => if c < w.len() && w[c as int].body.is_camera() {
                Some(c)
            } else {
                None
            },
            None => None,
        }
    } else {
        None
    }
}

/// The layers of an entity by its own tag: an untagged entity is on the
/// default layer.
pub open spec fn own_layers(e: EntityView) -> Set<nat> {
    match e.layers {
        Some(layers) => layers,
        None => set![DEFAULT_LAYER as nat],
    }
}

/// The layers that entity `id` is drawn on: its own tag; without one, for an
/// interface node, the layers of the camera that draws it; else the default
/// layer.
pub open spec fn layers_of(w: Seq<EntityView>, id: usize) -> Set<nat> {
    match w[id as int].layers {
        Some(layers) => layers,
        None => match ui_camera_of(w, id) {
            Some(c) => own_layers(w[c as int]),
            None => set![DEFAULT_LAYER as nat],
        },
    }
}

/// Camera `camera` draws entity `id`: their layers intersect.
pub open spec fn renders(w: Seq<EntityView>, camera: usize, id: usize) -> bool {
    &&& camera < w.len()
    &&& id < w.len()
    &&& w[camera as int].body.is_camera()
    &&& !layers_of(w, camera).disjoint(layers_of(w, id))
}

/// Entities `a` and `b` are drawn on exactly the same layers.
pub open spec fn shares_layers(w: Seq<EntityView>, a: usize, b: usize) -> bool {
    &&& a < w.len()
    &&& b < w.len()
    &&& layers_of(w, a) == layers_of(w, b)
}

/// The interface of camera `camera`: the interface nodes that it draws.
pub open spec fn interface_set(w: Seq<EntityView>, camera: usize) -> Set<usize> {
    Set::new(|id: usize| ui_camera_of(w, id) == Some(camera))
}

/// The numbers of the interface nodes that camera `camera` draws, in
/// ascending order.
pub open spec fn interface_of(w: Seq<EntityView>, camera: usize) -> Seq<usize> {
    ascending(interface_set(w, camera), w.len())
}

/// The cameras, other than `id` itself, whose layers are exactly those of
/// entity `id`.
pub open spec fn sharing_camera_set(w: Seq<EntityView>, id: usize) -> Set<usize> {
    Set::new(
        |c: usize| c < w.len() && c != id && w[c as int].body.is_camera() && shares_layers(w, c, id),
    )
}

/// The numbers of the cameras, other than `id` itself, whose layers are
/// exactly those of entity `id`, in ascending order. Empty when there is no
/// entity `id`.
pub open spec fn cameras_sharing_layers(w: Seq<EntityView>, id: usize) -> Seq<usize> {
    ascending(sharing_camera_set(w, id), w.len())
}

/// The entities of a scene. An entity's number is its place in the order of
/// spawning; the view is the sequence of the entities' views.
#[derive(Debug, PartialEq, Eq)]
pub struct World {
    entities: Vec<Entity>,
}

impl View for World {
    type V = Seq<EntityView>;

    closed spec fn view(&self) -> Seq<EntityView> {
        self.entities@.map_values(|e: Entity| e@)
    }
}

impl World {
    /// A world without entities.
    pub fn new() -> (world: World)
        ensures
            world@ == Seq::<EntityView>::empty(),
    {
        let world = World { entities: Vec::new() };
        assert(world@ =~= Seq::<EntityView>::empty());
        world
    }

    /// The number of entities.
    pub fn len(&self) -> (n: usize)
        ensures
            n == self@.len(),
    {
        self.entities.len()
    }

    /// Entity `id`, if there is one.
    pub fn get(&self, id: usize) -> (entity: Option<&Entity>)
        ensures
            entity is Some <==> id < self@.len(),
            entity matches Some(e) ==> e@ == self@[id as int],
    {
        if id < self.entities.len() {
            Some(&self.entities[id])
        } else {
            None
        }
    }

    /// Adds an entity and returns its number.
    pub fn spawn(&mut self, entity: Entity) -> (id: usize)
        ensures
            final(self)@ == old(self)@.push(entity@),
            id == old(self)@.len(),
    {
        let id = self.entities.len();
        self.entities.push(entity);
        assert(self@ =~= old(self)@.push(entity@));
        id
    }

    /// The entities that carry the interface-camera marker, in ascending
    /// order.
    pub fn ui_cameras(&self) -> (ids: Vec<usize>)
        ensures
            ids@ == ui_cameras(self@),
    {
        let mut ids: Vec<usize> = Vec::new();
        let n = self.entities.len();
        let mut i: usize = 0;
        while i < n
            invariant
                n == self.entities.len(),
                n == self@.len(),
                i <= n,
                ids@ == ascending(ui_camera_set(self@), i as nat),
            decreases n - i,
        {
            if self.entities[i].camera_ui.is_some() {
                ids.push(i);
            }
            i = i + 1;
        }
        ids
    }

    /// The top of the interface tree that entity `id` is in.
    fn root(&self, id: usize) -> (top: usize)
        requires
            id < self@.len(),
        ensures
            top == root_of(self@, id),
            top <= id,
    {
        let mut cur = id;
        loop
            invariant
                cur <= id,
                id < self@.len(),
                self@.len() == self.entities.len(),
                root_of(self@, cur) == root_of(self@, id),
            ensures
                cur == root_of(self@, id),
                cur <= id,
            decreases cur,
        {
            match self.entities[cur].parent {
                Some(p) => {
                    if p < cur {
                        cur = p;
                    } else {
                        break;
                    }
                },
                None => {
                    break;
                },
            }
        }
        cur
    }

    /// The camera that draws interface node `id`, found by walking up to the
    /// top of the node's tree.
    pub fn ui_camera_of(&self, id: usize) -> (camera: Option<usize>)
        ensures
            camera == ui_camera_of(self@, id),
    {
        if id >= self.entities.len() {
            return None;
        }
        if !is_ui_body(&self.entities[id]) {
            return None;
        }
        let top = self.root(id);
        match self.entities[top].target_camera {
            Some(c) => {
                if c < self.entities.len() && is_camera_body(&self.entities[c]) {
                    Some(c)
                } else {
                    None
                }
            },
            None => None,
        }
    }

    /// The interface of camera `camera`: the interface nodes whose tree targets
    /// it, in ascending order.
    pub fn interface_of(&self, camera: usize) -> (ids: Vec<usize>)
        ensures
            ids@ == interface_of(self@, camera),
    {
        let mut ids: Vec<usize> = Vec::new();
        let n = self.entities.len();
        let mut id: usize = 0;
        while id < n
            invariant
                n == self.entities.len(),
                n == self@.len(),
                id <= n,
                ids@ == ascending(interface_set(self@, camera), id as nat),
            decreases n - id,
        {
            match self.ui_camera_of(id) {
                Some(c) => {
                    if c == camera {
                        ids.push(id);
                    }
                },
                None => {},
            }
            id = id + 1;
        }
        ids
    }

    /// The layers that entity `id` is drawn on, if there is such an entity.
    pub fn layers_of(&self, id: usize) -> (tag: Option<Layers>)
        ensures
            tag is Some <==> id < self@.len(),
            tag matches Some(t) ==> t@ == layers_of(self@, id),
    {
        if id >= self.entities.len() {
            return None;
        }
        match &self.entities[id].layers {
            Some(own) => Some(Layers::layer(own.index())),
            None => match self.ui_camera_of(id) {
                Some(c) => match &self.entities[c].layers {
                    Some(of_camera) => Some(Layers::layer(of_camera.index())),
                    None => Some(Layers::layer(DEFAULT_LAYER)),
                },
                None => Some(Layers::layer(DEFAULT_LAYER)),
            },
        }
    }

    /// Does camera `camera` draw entity `id`? The engine's test on their
    /// layers decides.
    pub fn renders(&self, camera: usize, id: usize) -> (yes: bool)
        ensures
            yes == renders(self@, camera, id),
    {
        if camera >= self.entities.len() || !is_camera_body(&self.entities[camera]) {
            return false;
        }
        match (self.layers_of(camera), self.layers_of(id)) {
            (Some(of_camera), Some(of_entity)) => of_camera.intersects(&of_entity),
            _ => false,
        }
    }

    /// Are entities `a` and `b` drawn on exactly the same layers? The engine's
    /// comparison of their layers decides.
    pub fn shares_layers(&self, a: usize, b: usize) -> (yes: bool)
        ensures
            yes == shares_layers(self@, a, b),
    {
        match (self.layers_of(a), self.layers_of(b)) {
            (Some(of_a), Some(of_b)) => of_a.same_layers(&of_b),
            _ => false,
        }
    }

    /// The cameras, other than `id` itself, that are on exactly the layers of
    /// entity `id`, in ascending order. More than the one camera that an
    /// entity is meant for means that two cameras' layers collide.
    pub fn cameras_sharing_layers(&self, id: usize) -> (ids: Vec<usize>)
        ensures
            ids@ == cameras_sharing_layers(self@, id),
    {
        let mut ids: Vec<usize> = Vec::new();
        let n = self.entities.len();
        let mut c: usize = 0;
        while c < n
            invariant
                n == self.entities.len(),
                n == self@.len(),
                c <= n,
                ids@ == ascending(sharing_camera_set(self@, id), c as nat),
            decreases n - c,
        {
            if c != id && is_camera_body(&self.entities[c]) && self.shares_layers(c, id) {
                ids.push(c);
            }
            c = c + 1;
        }
        ids
    }
}

/// Is the entity a camera?
fn is_camera_body(entity: &Entity) -> (yes: bool)
    ensures
        yes == entity@.body.is_camera(),
{
    match entity.body {
        Body::Camera(_) => true,
        _ => false,
    }
}

/// Is the entity part of the interface?
fn is_ui_body(entity: &Entity) -> (yes: bool)
    ensures
        yes == entity@.body.is_ui(),
{
    match entity.body {
        Body::Node(_) => true,
        Body::Button(_) => true,
        Body::Label(_) => true,
        _ => false,
    }
}

} // verus!
