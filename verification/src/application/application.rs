//! The settings an application starts with, and what an application offers.

use vstd::prelude::*;

verus! {

/// The settings of an application, collected before it is created.
pub struct ApplicationBuilder {
    pub name: String,
    pub width: u32,
    pub height: u32,
    pub initialize_base_services: bool,
}

impl ApplicationBuilder {
    /// The settings of an application named "Frost Application", in a window
    /// of 800 by 600, that starts the base services.
    pub fn new() -> (builder: ApplicationBuilder)
        ensures
            builder.name@ == "Frost Application"@,
            builder.width == 800,
            builder.height == 600,
            builder.initialize_base_services,
    {
        ApplicationBuilder {
            name: "Frost Application".to_owned(),
            width: 800,
            height: 600,
            initialize_base_services: true,
        }
    }

    /// Stores a copy of `name`.
    pub fn name(&mut self, name: &str) -> (builder: &mut Self)
        ensures
            builder.name@ == name@,
            builder.width == old(self).width,
            builder.height == old(self).height,
            builder.initialize_base_services == old(self).initialize_base_services,
            *final(self) == *final(builder),
    {
        self.name = name.to_owned();
        self
    }

    pub fn width(&mut self, width: u32) -> (builder: &mut Self)
        ensures
            *builder == (ApplicationBuilder { width, ..*old(self) }),
            *final(self) == *final(builder),
    {
        self.width = width;
        self
    }

    pub fn height(&mut self, height: u32) -> (builder: &mut Self)
        ensures
            *builder == (ApplicationBuilder { height, ..*old(self) }),
            *final(self) == *final(builder),
    {
        self.height = height;
        self
    }

    pub fn initialize_base_services(
        &mut self,
        initialize_base_services: bool,
    ) -> (builder: &mut Self)
        ensures
            *builder == (ApplicationBuilder { initialize_base_services, ..*old(self) }),
            *final(self) == *final(builder),
    {
        self.initialize_base_services = initialize_base_services;
        self
    }
}

/// What an application offers to the code that drives it.
pub trait Application {
    fn create(&mut self, builder: &ApplicationBuilder);

    fn run(&mut self, builder: &ApplicationBuilder);
}

} // verus!
