//! Textures and surface materials.

use vstd::prelude::*;
use crate::geometry::Color;

verus! {

/// A texture: what colour a surface has at each point.
#[derive(Debug, PartialEq)]
pub enum Texture {
    /// One colour everywhere.
    Solid(Color),
    /// A 3D checker pattern of cells of side `scale`, alternating two textures.
    Checker { scale: i64, even: Box<Texture>, odd: Box<Texture> },
    /// An image read from the file at this path, wrapped around the surface.
    Image(String),
}

/// The mathematical value of a [`Texture`].
pub enum TextureModel {
    Solid(Color),
    Checker { scale: i64, even: Box<TextureModel>, odd: Box<TextureModel> },
    Image(Seq<char>),
}

impl Texture {
    /// The value of this texture, with the image path as a character sequence.
    pub open spec fn model(&self) -> TextureModel
        decreases self,
    {
        match self {
            Texture::Solid(c) => TextureModel::Solid(*c),
            Texture::Checker { scale, even, odd } => TextureModel::Checker {
                scale: *scale,
                even: Box::new(even.model()),
                odd: Box::new(odd.model()),
            },
            Texture::Image(path) => TextureModel::Image(path@),
        }
    }

    /// A texture of one colour.
    pub fn solid(color: Color) -> (t: Texture)
        ensures
            t.model() == TextureModel::Solid(color),
    {
        Texture::Solid(color)
    }

    /// A checker pattern of cells of side `scale` made of two solid colours.
    pub fn checker(scale: i64, even: Color, odd: Color) -> (t: Texture)
        ensures
            t.model() == (TextureModel::Checker {
                scale,
                even: Box::new(TextureModel::Solid(even)),
                odd: Box::new(TextureModel::Solid(odd)),
            }),
    {
        let t = Texture::Checker {
            scale,
            even: Box::new(Texture::Solid(even)),
            odd: Box::new(Texture::Solid(odd)),
        };
        proof {
            reveal_with_fuel(Texture::model, 2);
        }
        t
    }

    /// An image texture read from `path`.
    pub fn image(path: &str) -> (t: Texture)
        ensures
            t.model() == TextureModel::Image(path@),
    {
        Texture::Image(path.to_string())
    }
}

impl DeepView for Texture {
    type V = TextureModel;

    open spec fn deep_view(&self) -> TextureModel {
        self.model()
    }
}

/// How a surface reflects, refracts or emits light.
#[derive(Debug, PartialEq)]
pub enum Material {
    /// A diffuse surface coloured by a texture.
    Lambertian(Texture),
    /// A mirror of the given colour, blurred by `fuzz` (0 is a perfect mirror).
    Metal { albedo: Color, fuzz: i64 },
    /// A clear refracting material with this index of refraction.
    Dielectric { refraction_index: i64 },
    /// A light source emitting the colour of its texture.
    DiffuseLight(Texture),
}

/// The mathematical value of a [`Material`].
pub enum MaterialModel {
    Lambertian(TextureModel),
    Metal { albedo: Color, fuzz: i64 },
    Dielectric { refraction_index: i64 },
    DiffuseLight(TextureModel),
}

impl DeepView for Material {
    type V = MaterialModel;

    open spec fn deep_view(&self) -> MaterialModel {
        match self {
            Material::Lambertian(t) => MaterialModel::Lambertian(t.model()),
            Material::Metal { albedo, fuzz } => MaterialModel::Metal { albedo: *albedo, fuzz: *fuzz },
            Material::Dielectric { refraction_index } => MaterialModel::Dielectric {
                refraction_index: *refraction_index,
            },
            Material::DiffuseLight(t) => MaterialModel::DiffuseLight(t.model()),
        }
    }
}

impl Material {
    /// A diffuse material of one colour.
    pub fn lambertian_solid(color: Color) -> (m: Material)
        ensures
            m.deep_view() == MaterialModel::Lambertian(TextureModel::Solid(color)),
    {
        Material::Lambertian(Texture::solid(color))
    }

    /// A light of one colour.
    pub fn light_solid(color: Color) -> (m: Material)
        ensures
            m.deep_view() == MaterialModel::DiffuseLight(TextureModel::Solid(color)),
    {
        Material::DiffuseLight(Texture::solid(color))
    }

    /// A diffuse material showing the image at `path`.
    pub fn lambertian_image(path: &str) -> (m: Material)
        ensures
            m.deep_view() == MaterialModel::Lambertian(TextureModel::Image(path@)),
    {
        Material::Lambertian(Texture::image(path))
    }
}

} // verus!
