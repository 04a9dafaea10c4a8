//! Scene-description descriptors: the plain data a configuration file
//! resolves to, and their elaboration into surfaces and a camera.
//!
//! Parsing itself is an outside concern; the library's obligation starts
//! at fully resolved descriptor values and ends at an `Application`
//! ready to render.

use crate::camera::{Camera, spec_camera};
use crate::fixed::Fx;
use crate::hit::{HittableList, Surface};
use crate::material::Material;
use crate::vec3::{Vec3, vec_neg};
use vstd::prelude::*;

verus! {

/// A descriptor that elaborates to one surface.
pub trait UnprocessedData: Sized {
    /// The surface the descriptor denotes.
    spec fn spec_process(&self) -> Surface;

    /// The descriptor's scalars are well-formed.
    spec fn data_wf(&self) -> bool;

    /// Elaborates the descriptor.
    fn process(&self) -> (s: Surface)
        requires
            self.data_wf(),
        ensures
            s == self.spec_process(),
    ;
}

/// A box between two corners.
#[derive(Clone, Copy, Debug, PartialEq, Eq, Structural)]
pub struct UnprocessedCube {
    pub p0: Vec3,
    pub p1: Vec3,
    pub mat: Material,
}

impl UnprocessedData for UnprocessedCube {
    open spec fn spec_process(&self) -> Surface {
        Surface::Cube(crate::cube::Cube { min: self.p0, max: self.p1, material: self.mat })
    }

    open spec fn data_wf(&self) -> bool {
        self.p0.wf() && self.p1.wf() && self.mat.wf()
    }

    fn process(&self) -> (s: Surface) {
        Surface::Cube(crate::cube::Cube::new(self.p0, self.p1, self.mat))
    }
}

/// A bounded planar patch.
#[derive(Clone, Copy, Debug, PartialEq, Eq, Structural)]
pub struct UnprocessedPlane {
    pub normal: Vec3,
    pub dist: Fx,
    pub width: Fx,
    pub height: Fx,
    pub material: Material,
}

impl UnprocessedData for UnprocessedPlane {
    open spec fn spec_process(&self) -> Surface {
        Surface::Plane(
            crate::plane_surf::Plane {
                normal: vec_neg(self.normal),
                dist: self.dist,
                width: self.width,
                height: self.height,
                material: self.material,
            },
        )
    }

    open spec fn data_wf(&self) -> bool {
        self.normal.wf() && self.dist.wf() && self.width.wf() && self.height.wf()
            && self.material.wf()
    }

    fn process(&self) -> (s: Surface) {
        Surface::Plane(
            crate::plane_surf::Plane::new(
                self.normal,
                self.dist,
                self.width,
                self.height,
                self.material,
            ),
        )
    }
}

/// A sphere.
#[derive(Clone, Copy, Debug, PartialEq, Eq, Structural)]
pub struct UnprocessedSphere {
    pub center: Vec3,
    pub radius: Fx,
    pub material: Material,
}

impl UnprocessedData for UnprocessedSphere {
    open spec fn spec_process(&self) -> Surface {
        Surface::Sphere(
            crate::sphere::Sphere {
                center: self.center,
                radius: self.radius,
                material: self.material,
            },
        )
    }

    open spec fn data_wf(&self) -> bool {
        self.center.wf() && self.radius.wf() && self.material.wf()
    }

    fn process(&self) -> (s: Surface) {
        Surface::Sphere(crate::sphere::Sphere::new(self.center, self.radius, self.material))
    }
}

/// A capped cylinder.
#[derive(Clone, Copy, Debug, PartialEq, Eq, Structural)]
pub struct UnprocessedCylinder {
    pub center: Vec3,
    pub radius: Fx,
    pub height: Fx,
    pub material: Material,
}

impl UnprocessedData for UnprocessedCylinder {
    open spec fn spec_process(&self) -> Surface {
        Surface::Cylinder(
            crate::cylinder::Cylinder {
                center: self.center,
                radius: self.radius,
                height: self.height,
                material: self.material,
            },
        )
    }

    open spec fn data_wf(&self) -> bool {
        self.center.wf() && self.radius.wf() && self.height.wf() && self.material.wf()
    }

    fn process(&self) -> (s: Surface) {
        Surface::Cylinder(
            crate::cylinder::Cylinder::new(self.center, self.radius, self.height, self.material),
        )
    }
}

/// Any of the surface descriptors; the tag a configuration names picks
/// the variant.
#[derive(Clone, Copy, Debug, PartialEq, Eq, Structural)]
pub enum UnprocessedShape {
    Cube(UnprocessedCube),
    Plane(UnprocessedPlane),
    Sphere(UnprocessedSphere),
    Cylinder(UnprocessedCylinder),
}

impl UnprocessedData for UnprocessedShape {
    open spec fn spec_process(&self) -> Surface {
        match self {
            UnprocessedShape::Cube(c) => c.spec_process(),
            UnprocessedShape::Plane(p) => p.spec_process(),
            UnprocessedShape::Sphere(s) => s.spec_process(),
            UnprocessedShape::Cylinder(c) => c.spec_process(),
        }
    }

    open spec fn data_wf(&self) -> bool {
        match self {
            UnprocessedShape::Cube(c) => c.data_wf(),
            UnprocessedShape::Plane(p) => p.data_wf(),
            UnprocessedShape::Sphere(s) => s.data_wf(),
            UnprocessedShape::Cylinder(c) => c.data_wf(),
        }
    }

    fn process(&self) -> (s: Surface) {
        match self {
            UnprocessedShape::Cube(c) => c.process(),
            UnprocessedShape::Plane(p) => p.process(),
            UnprocessedShape::Sphere(s) => s.process(),
            UnprocessedShape::Cylinder(c) => c.process(),
        }
    }
}

/// The camera descriptor.
#[derive(Clone, Copy, Debug, PartialEq, Eq, Structural)]
pub struct UnprocessedCamera {
    pub look_from: Vec3,
    pub look_at: Vec3,
    pub vup: Vec3,
    pub vfov: Fx,
    pub aperture: Fx,
}

impl UnprocessedCamera {
    /// The descriptor's scalars are well-formed.
    pub open spec fn wf(self) -> bool {
        self.look_from.wf() && self.look_at.wf() && self.vup.wf() && self.vfov.wf()
            && self.aperture.wf()
    }

    /// Derives the camera for the given raster dimensions.
    fn process(&self, height: u32, width: u32) -> (cam: Camera)
        requires
            self.wf(),
        ensures
            cam == spec_camera(
                self.look_from,
                self.look_at,
                self.vup,
                self.vfov,
                self.aperture,
                height,
                width,
            ),
            cam.wf(),
    {
        Camera::new(
            self.look_from,
            self.look_at,
            self.vup,
            self.vfov,
            self.aperture,
            height,
            width,
        )
    }
}

/// A fully resolved configuration: the scene's descriptors and the
/// render knobs.
#[derive(Clone, Debug)]
pub struct Config {
    pub unprocessed_data: Vec<UnprocessedShape>,
    pub cam: UnprocessedCamera,
    pub light: i32,
    pub samples: i32,
    pub width: u32,
    pub height: u32,
}

/// Everything a render needs: the resolved surfaces, the camera and the
/// knobs.
#[derive(Clone, Debug)]
pub struct Application {
    pub world: HittableList,
    pub camera: Camera,
    pub light: i32,
    pub samples: i32,
    pub height: u32,
    pub width: u32,
}

impl Config {
    /// Every descriptor is well-formed.
    pub open spec fn wf(self) -> bool {
        &&& forall|i: int|
            0 <= i < self.unprocessed_data.len() ==> (#[trigger] self.unprocessed_data[i]).data_wf()
        &&& self.cam.wf()
    }

    /// Elaborates every descriptor: each surface in order, and the
    /// camera derived for the configured raster.
    pub fn process(self) -> (app: Application)
        requires
            self.wf(),
        ensures
            app.world.0.len() == self.unprocessed_data.len(),
            forall|i: int|
                0 <= i < self.unprocessed_data.len() ==> app.world.0[i] == (
                #[trigger] self.unprocessed_data[i]).spec_process(),
            app.camera == spec_camera(
                self.cam.look_from,
                self.cam.look_at,
                self.cam.vup,
                self.cam.vfov,
                self.cam.aperture,
                self.height,
                self.width,
            ),
            app.light == self.light,
            app.samples == self.samples,
            app.width == self.width,
            app.height == self.height,
    {
        let mut surfaces: Vec<Surface> = Vec::new();
        let mut i: usize = 0;
        while i < self.unprocessed_data.len()
            invariant
                self.wf(),
                i <= self.unprocessed_data.len(),
                surfaces.len() == i,
                forall|j: int|
                    0 <= j < i ==> surfaces[j] == (
                    #[trigger] self.unprocessed_data[j]).spec_process(),
            decreases self.unprocessed_data.len() - i,
        {
            let s = self.unprocessed_data[i].process();
            surfaces.push(s);
            i += 1;
        }
        Application {
            world: HittableList::new(surfaces),
            camera: self.cam.process(self.height, self.width),
            light: self.light,
            samples: self.samples,
            width: self.width,
            height: self.height,
        }
    }
}

} // verus!
