//! Scenes: the instances to draw, each a mesh and a transform, and the camera.
use vstd::prelude::*;
use crate::error::EngineError;
use crate::mesh::MeshID;
use crate::vertex::{Transform, identity_elements};

verus! {

/// Identifier of an instance in a scene.
pub type InstanceID = u64;

/// A positioned reference to a mesh. The dirty flag is set on every change of the transform
/// and read by nothing: every frame rewrites all transforms.
#[derive(Clone, Copy, Debug)]
pub struct Instance {
    pub mesh_id_: MeshID,
    pub transform_: Transform,
    pub dirty_: bool,
}

impl Instance {
    /// An instance of `mesh_id` placed by `transform`, or by the identity when none is given.
    pub fn new(mesh_id: MeshID, transform: Option<Transform>) -> (r: Instance)
        ensures
            r.mesh_id_ == mesh_id,
            transform.is_some() ==> r.transform_ == transform.unwrap(),
            transform.is_none() ==> r.transform_.elements_@ == identity_elements(),
            r.dirty_,
    {
        Instance {
            mesh_id_: mesh_id,
            transform_: match transform {
                Some(t) => t,
                None => Transform::identity(),
            },
            dirty_: true,
        }
    }

    /// Replaces the transform and marks the instance changed.
    pub fn update(&mut self, transform: Transform)
        ensures
            *final(self) == (Instance { transform_: transform, dirty_: true, ..*old(self) }),
    {
        self.transform_ = transform;
        self.dirty_ = true;
    }
}

/// What a scene holds: its instances in identifier order, and the camera.
pub ghost struct SceneModel {
    pub instances: Seq<Instance>,
    pub view: Transform,
    pub projection: Transform,
}

/// The instances of a scene and its camera. Instance identifiers are handed out from 0 up and
/// instances are never removed, so the identifier of an instance is its position.
#[derive(Debug)]
pub struct Scene {
    instances_: Vec<Instance>,
    view_: Transform,
    projection_: Transform,
}

impl View for Scene {
    type V = SceneModel;

    closed spec fn view(&self) -> SceneModel {
        SceneModel { instances: self.instances_@, view: self.view_, projection: self.projection_ }
    }
}

impl Scene {
    /// A scene without instances, with identity view and projection.
    pub fn new() -> (r: Scene)
        ensures
            r@.instances.len() == 0,
            r@.view.elements_@ == identity_elements(),
            r@.projection.elements_@ == identity_elements(),
    {
        Scene {
            instances_: Vec::new(),
            view_: Transform::identity(),
            projection_: Transform::identity(),
        }
    }

    /// The camera view.
    pub fn view_matrix(&self) -> (r: Transform)
        ensures
            r == self@.view,
    {
        self.view_
    }

    /// The camera projection.
    pub fn projection_matrix(&self) -> (r: Transform)
        ensures
            r == self@.projection,
    {
        self.projection_
    }

    /// The number of instances.
    pub fn len(&self) -> (r: usize)
        ensures
            r == self@.instances.len(),
    {
        self.instances_.len()
    }

    /// Replaces the camera view and projection.
    pub fn set_camera(&mut self, view: Transform, projection: Transform)
        ensures
            final(self)@ == (SceneModel { view, projection, ..old(self)@ }),
    {
        self.view_ = view;
        self.projection_ = projection;
    }

    /// Adds an instance of `mesh_id` and returns its identifier: the number of instances
    /// before.
    pub fn create_instance(&mut self, mesh_id: MeshID, transform: Option<Transform>) -> (id:
        InstanceID)
        ensures
            id == old(self)@.instances.len(),
            final(self)@.view == old(self)@.view,
            final(self)@.projection == old(self)@.projection,
            final(self)@.instances.len() == old(self)@.instances.len() + 1,
            final(self)@.instances.drop_last() == old(self)@.instances,
            final(self)@.instances.last().mesh_id_ == mesh_id,
            final(self)@.instances.last().dirty_,
            transform.is_some() ==> final(self)@.instances.last().transform_ == transform.unwrap(),
            transform.is_none() ==> final(self)@.instances.last().transform_.elements_@
                == identity_elements(),
    {
        let id = self.instances_.len() as u64;
        self.instances_.push(Instance::new(mesh_id, transform));
        assert(self@.instances.drop_last() =~= old(self)@.instances);
        id
    }

    /// Replaces the transform of instance `instance_id` and marks it changed.
    pub fn update_instance(&mut self, instance_id: InstanceID, transform: Transform) -> (r: Result<
        (),
        EngineError,
    >)
        ensures
            r.is_ok() <==> instance_id < old(self)@.instances.len(),
            r.is_err() ==> r == Err::<(), EngineError>(EngineError::NotFound)
                && final(self)@ == old(self)@,
            r.is_ok() ==> final(self)@ == (SceneModel {
                instances: old(self)@.instances.update(
                    instance_id as int,
                    Instance {
                        transform_: transform,
                        dirty_: true,
                        ..old(self)@.instances[instance_id as int]
                    },
                ),
                ..old(self)@
            }),
    {
        if instance_id >= self.instances_.len() as u64 {
            return Err(EngineError::NotFound);
        }
        let i = instance_id as usize;
        let mut instance = self.instances_[i];
        instance.update(transform);
        self.instances_.set(i, instance);
        Ok(())
    }

    /// The instance `instance_id`, to change in place; `NotFound`, with nothing changed, when
    /// there is no such instance.
    pub fn get_mut_instance(&mut self, instance_id: InstanceID) -> (r: Result<
        &mut Instance,
        EngineError,
    >)
        ensures
            r.is_ok() <==> instance_id < old(self)@.instances.len(),
            match r {
                Ok(x) => {
                    &&& *x == old(self)@.instances[instance_id as int]
                    &&& final(self)@ == (SceneModel {
                        instances: old(self)@.instances.update(instance_id as int, *final(x)),
                        ..old(self)@
                    })
                },
                Err(e) => e == EngineError::NotFound && final(self)@ == old(self)@,
            },
    {
        let n = self.instances_.len();
        if instance_id >= n as u64 {
            return Err(EngineError::NotFound);
        }
        Ok(&mut self.instances_[instance_id as usize])
    }

    /// The instance `instance_id`.
    pub fn get_instance(&self, instance_id: InstanceID) -> (r: Result<Instance, EngineError>)
        ensures
            r.is_ok() <==> instance_id < self@.instances.len(),
            r.is_ok() ==> r.unwrap() == self@.instances[instance_id as int],
            r.is_err() ==> r == Err::<Instance, EngineError>(EngineError::NotFound),
    {
        if instance_id >= self.instances_.len() as u64 {
            return Err(EngineError::NotFound);
        }
        Ok(self.instances_[instance_id as usize])
    }

    /// All instances, in identifier order.
    pub fn get_instances(&self) -> (r: Vec<Instance>)
        ensures
            r@ == self@.instances,
    {
        let mut r: Vec<Instance> = Vec::new();
        let mut i: usize = 0;
        while i < self.instances_.len()
            invariant
                i <= self.instances_@.len(),
                r@ == self.instances_@.subrange(0, i as int),
            decreases self.instances_@.len() - i,
        {
            r.push(self.instances_[i]);
            i = i + 1;
            assert(r@ =~= self.instances_@.subrange(0, i as int));
        }
        assert(self.instances_@.subrange(0, i as int) =~= self.instances_@);
        r
    }

    /// An independent copy of this scene.
    pub fn snapshot(&self) -> (r: Scene)
        ensures
            r@ == self@,
    {
        Scene { instances_: self.get_instances(), view_: self.view_, projection_: self.projection_ }
    }
}

/// Identifiers handed out by successive `create_instance` calls on one scene strictly
/// increase, so none is handed out twice.
pub proof fn lemma_instance_ids_increase(s0: SceneModel, id1: u64, s1: SceneModel, id2: u64)
    requires
        id1 == s0.instances.len(),
        s1.instances.len() == s0.instances.len() + 1,
        id2 == s1.instances.len(),
    ensures
        id1 < id2,
{
}

} // verus!
