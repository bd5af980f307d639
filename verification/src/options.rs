//! What the user asked for.

use vstd::prelude::*;

verus! {

/// Whether the pipeline is shown to everyone once it is set.
#[derive(Clone, Copy, Debug, PartialEq, Eq, Structural)]
pub enum Exposure {
    /// Expose it, whatever the metadata says.
    ForceTrue,
    /// Hide it, whatever the metadata says.
    ForceFalse,
    /// Do as the metadata says.
    Inherit,
}

/// What a command does with the merged pipeline.
#[derive(Clone, Copy, Debug, PartialEq, Eq, Structural)]
pub enum Mode {
    /// Ask the orchestrator whether the pipeline is valid.
    Validate,
    /// Print the pipeline.
    DryRun,
    /// Set the pipeline.
    Apply,
}

/// The options of one command.
#[derive(Clone, Debug, PartialEq, Eq)]
pub struct RepipeOptions {
    /// 0: do not validate; 1: validate; 2: validate strictly.
    pub validate: u8,
    /// 0: no dry run; 1 or 2: print the pipeline instead of setting it.
    pub dry_run: u8,
    /// Pause the pipeline after it is set (else unpause it).
    pub pause: bool,
    /// Expose or hide the pipeline after it is set.
    pub expose: Exposure,
    /// 0: do not open a browser; 1 or 2: open the pipeline's page.
    pub open_browser: u8,
    /// Set the pipeline without asking for confirmation.
    pub yes: bool,
    /// The orchestrator's executable, where it is not the one on the path.
    pub fly_path: Option<String>,
    /// Keep what was generated, and stop after the merge.
    pub debug: bool,
}

/// The mathematical content of [`RepipeOptions`].
pub ghost struct RepipeOptionsView {
    pub validate: u8,
    pub dry_run: u8,
    pub pause: bool,
    pub expose: Exposure,
    pub open_browser: u8,
    pub yes: bool,
    pub fly_path: Option<Seq<char>>,
    pub debug: bool,
}

impl View for RepipeOptions {
    type V = RepipeOptionsView;

    open spec fn view(&self) -> RepipeOptionsView {
        RepipeOptionsView {
            validate: self.validate,
            dry_run: self.dry_run,
            pause: self.pause,
            expose: self.expose,
            open_browser: self.open_browser,
            yes: self.yes,
            fly_path: self.fly_path.deep_view(),
            debug: self.debug,
        }
    }
}

/// Why a set of flags makes no options.
#[derive(Clone, Copy, Debug, PartialEq, Eq, Structural)]
pub enum OptionsError {
    /// Both the flag to expose and the flag to hide were given.
    ExposeAndHide,
}

/// A flag's level: how often it was given, and 2 where that is more.
pub open spec fn level(count: nat) -> u8 {
    if count >= 2 {
        2
    } else {
        count as u8
    }
}

/// The override that the two flags `expose` and `hide` ask for.
pub open spec fn exposure_of(expose: bool, hide: bool) -> Option<Exposure> {
    if expose && hide {
        None
    } else if expose {
        Some(Exposure::ForceTrue)
    } else if hide {
        Some(Exposure::ForceFalse)
    } else {
        Some(Exposure::Inherit)
    }
}

impl RepipeOptionsView {
    /// The options of a command given without any flag.
    pub open spec fn default_options() -> RepipeOptionsView {
        RepipeOptionsView {
            validate: 0,
            dry_run: 0,
            pause: false,
            expose: Exposure::Inherit,
            open_browser: 0,
            yes: false,
            fly_path: None,
            debug: false,
        }
    }

    /// Every level is 0, 1 or 2.
    pub open spec fn well_formed(self) -> bool {
        self.validate <= 2 && self.dry_run <= 2 && self.open_browser <= 2
    }

    /// Validation comes before a dry run, and a dry run before applying.
    pub open spec fn mode(self) -> Mode {
        if self.validate > 0 {
            Mode::Validate
        } else if self.dry_run > 0 {
            Mode::DryRun
        } else {
            Mode::Apply
        }
    }

    /// Whether validation is strict.
    pub open spec fn strict(self) -> bool {
        self.validate >= 2
    }

    /// The program that is run for remote calls.
    pub open spec fn fly_program(self) -> Seq<char> {
        match self.fly_path {
            Some(path) => path,
            None => "fly"@,
        }
    }

    /// Whether the pipeline is exposed: as the option says, else as the
    /// metadata says, else not.
    pub open spec fn exposed(self, metadata: Option<bool>) -> bool {
        match self.expose {
            Exposure::ForceTrue => true,
            Exposure::ForceFalse => false,
            Exposure::Inherit => metadata == Some(true),
        }
    }
}

impl Default for RepipeOptions {
    fn default() -> (r: RepipeOptions)
        ensures
            r@ == RepipeOptionsView::default_options(),
    {
        RepipeOptions {
            validate: 0,
            dry_run: 0,
            pause: false,
            expose: Exposure::Inherit,
            open_browser: 0,
            yes: false,
            fly_path: None,
            debug: false,
        }
    }
}

/// The level of a flag that was given `count` times.
fn level_of(count: usize) -> (r: u8)
    ensures
        r == level(count as nat),
{
    if count >= 2 {
        2
    } else if count == 1 {
        1
    } else {
        0
    }
}

impl RepipeOptions {
    /// The options that the command line's flags ask for. Each of
    /// `validate`, `dry_run` and `open_browser` says how often its flag was
    /// given. The flags `expose` and `hide` exclude each other.
    pub fn from_flags(
        validate: usize,
        dry_run: usize,
        pause: bool,
        expose: bool,
        hide: bool,
        open_browser: usize,
        yes: bool,
        fly_path: Option<String>,
        debug: bool,
    ) -> (r: Result<RepipeOptions, OptionsError>)
        ensures
            r is Err <==> expose && hide,
            r matches Err(e) ==> e == OptionsError::ExposeAndHide,
            r matches Ok(o) ==> o@ == (RepipeOptionsView {
                validate: level(validate as nat),
                dry_run: level(dry_run as nat),
                pause,
                expose: exposure_of(expose, hide).unwrap(),
                open_browser: level(open_browser as nat),
                yes,
                fly_path: fly_path.deep_view(),
                debug,
            }) && o@.well_formed(),
    {
        if expose && hide {
            return Err(OptionsError::ExposeAndHide);
        }
        let exposure = if expose {
            Exposure::ForceTrue
        } else if hide {
            Exposure::ForceFalse
        } else {
            Exposure::Inherit
        };
        Ok(
            RepipeOptions {
                validate: level_of(validate),
                dry_run: level_of(dry_run),
                pause,
                expose: exposure,
                open_browser: level_of(open_browser),
                yes,
                fly_path,
                debug,
            },
        )
    }

    /// What the command does with the merged pipeline.
    pub fn mode(&self) -> (r: Mode)
        ensures
            r == self@.mode(),
    {
        if self.validate > 0 {
            Mode::Validate
        } else if self.dry_run > 0 {
            Mode::DryRun
        } else {
            Mode::Apply
        }
    }

    /// Whether validation is strict.
    pub fn strict(&self) -> (r: bool)
        ensures
            r == self@.strict(),
    {
        self.validate >= 2
    }

    /// The program that is run for remote calls.
    pub fn fly_program(&self) -> (r: String)
        ensures
            r@ == self@.fly_program(),
    {
        match &self.fly_path {
            Some(path) => path.clone(),
            None => "fly".to_owned(),
        }
    }

    /// Whether the pipeline is exposed, given what the metadata says.
    pub fn exposed(&self, metadata: Option<bool>) -> (r: bool)
        ensures
            r == self@.exposed(metadata),
    {
        match self.expose {
            Exposure::ForceTrue => true,
            Exposure::ForceFalse => false,
            Exposure::Inherit => match metadata {
                Some(b) => b,
                None => false,
            },
        }
    }
}

} // verus!
