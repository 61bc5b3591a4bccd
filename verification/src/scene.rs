//! Scene descriptions: the objects of a world, how they are placed, and the
//! camera and output file of a render.

use vstd::prelude::*;
use crate::camera::Camera;
use crate::geometry::{Point3, Rotation, Vec3};
use crate::material::{Material, MaterialModel, Texture, TextureModel};

verus! {

/// A basic surface.
#[derive(Debug, PartialEq)]
pub enum Primitive {
    /// A sphere with this centre and radius.
    Sphere { center: Point3, radius: i64, material: Material },
    /// The parallelogram with corner `q` and edges `u` and `v`.
    Quad { q: Point3, u: Vec3, v: Vec3, material: Material },
    /// The axis-aligned box with opposite corners `a` and `b`, made of six quads.
    Cuboid { a: Point3, b: Point3, material: Material },
}

/// The mathematical value of a [`Primitive`].
pub enum PrimitiveModel {
    Sphere { center: Point3, radius: i64, material: MaterialModel },
    Quad { q: Point3, u: Vec3, v: Vec3, material: MaterialModel },
    Cuboid { a: Point3, b: Point3, material: MaterialModel },
}

impl DeepView for Primitive {
    type V = PrimitiveModel;

    open spec fn deep_view(&self) -> PrimitiveModel {
        match self {
            Primitive::Sphere { center, radius, material } => PrimitiveModel::Sphere {
                center: *center,
                radius: *radius,
                material: material.deep_view(),
            },
            Primitive::Quad { q, u, v, material } => PrimitiveModel::Quad {
                q: *q,
                u: *u,
                v: *v,
                material: material.deep_view(),
            },
            Primitive::Cuboid { a, b, material } => PrimitiveModel::Cuboid {
                a: *a,
                b: *b,
                material: material.deep_view(),
            },
        }
    }
}

/// The geometry of an object: one primitive, or many primitives held in a
/// bounding volume hierarchy.
#[derive(Debug, PartialEq)]
pub enum Shape {
    Single(Primitive),
    Bvh(Vec<Primitive>),
}

/// The mathematical value of a [`Shape`].
pub enum ShapeModel {
    Single(PrimitiveModel),
    Bvh(Seq<PrimitiveModel>),
}

impl DeepView for Shape {
    type V = ShapeModel;

    open spec fn deep_view(&self) -> ShapeModel {
        match self {
            Shape::Single(p) => ShapeModel::Single(p.deep_view()),
            Shape::Bvh(ps) => ShapeModel::Bvh(ps.deep_view()),
        }
    }
}

/// A participating medium of constant density filling an object's volume.
#[derive(Debug, PartialEq)]
pub struct Fog {
    pub density: i64,
    pub albedo: Texture,
}

/// The mathematical value of a [`Fog`].
pub struct FogModel {
    pub density: i64,
    pub albedo: TextureModel,
}

impl DeepView for Fog {
    type V = FogModel;

    open spec fn deep_view(&self) -> FogModel {
        FogModel { density: self.density, albedo: self.albedo.model() }
    }
}

/// An object of the world: a shape, first rotated about its origin, then
/// moved by `offset`, and, with `fog`, turned into a volume of fog bounded by
/// the placed shape.
#[derive(Debug, PartialEq)]
pub struct Object {
    pub shape: Shape,
    pub rotation: Option<Rotation>,
    pub offset: Option<Vec3>,
    pub fog: Option<Fog>,
}

/// The mathematical value of an [`Object`].
pub struct ObjectModel {
    pub shape: ShapeModel,
    pub rotation: Option<Rotation>,
    pub offset: Option<Vec3>,
    pub fog: Option<FogModel>,
}

impl DeepView for Object {
    type V = ObjectModel;

    open spec fn deep_view(&self) -> ObjectModel {
        ObjectModel {
            shape: self.shape.deep_view(),
            rotation: self.rotation,
            offset: self.offset,
            fog: self.fog.deep_view(),
        }
    }
}

/// All objects of a scene; with `bvh`, they are searched through a bounding
/// volume hierarchy rather than one after another.
#[derive(Debug, PartialEq)]
pub struct World {
    pub objects: Vec<Object>,
    pub bvh: bool,
}

/// The mathematical value of a [`World`].
pub struct WorldModel {
    pub objects: Seq<ObjectModel>,
    pub bvh: bool,
}

impl DeepView for World {
    type V = WorldModel;

    open spec fn deep_view(&self) -> WorldModel {
        WorldModel { objects: self.objects.deep_view(), bvh: self.bvh }
    }
}

/// A render job: what to render, from where, and into which file.
#[derive(Debug, PartialEq)]
pub struct Scene {
    pub world: World,
    pub camera: Camera,
    pub output_path: String,
}

/// The mathematical value of a [`Scene`].
pub struct SceneModel {
    pub world: WorldModel,
    pub camera: Camera,
    pub output_path: Seq<char>,
}

impl DeepView for Scene {
    type V = SceneModel;

    open spec fn deep_view(&self) -> SceneModel {
        SceneModel {
            world: self.world.deep_view(),
            camera: self.camera,
            output_path: self.output_path@,
        }
    }
}

/// An object made of one primitive, neither moved nor filled with fog.
pub open spec fn plain(p: PrimitiveModel) -> ObjectModel {
    ObjectModel { shape: ShapeModel::Single(p), rotation: None, offset: None, fog: None }
}

impl Object {
    /// An object made of one primitive, neither moved nor filled with fog.
    pub fn plain(p: Primitive) -> (o: Object)
        ensures
            o.deep_view() == plain(p.deep_view()),
    {
        Object { shape: Shape::Single(p), rotation: None, offset: None, fog: None }
    }
}

} // verus!
