//! The command-line options, once tokenized, and the request they build.
use vstd::prelude::*;

use crate::brightness::{Action, BrightnessChange};

verus! {

/// One recognised option with its value.
#[derive(Clone, Copy, Debug, PartialEq, Eq, Structural)]
pub enum Opt {
    /// `-d` / `--display`: only the display at this position.
    Display(usize),
    /// `--inc`: raise by this many points.
    Inc(i16),
    /// `--dec`: lower by this many points.
    Dec(i16),
    /// `--set`: set to this many percent.
    SetTo(u16),
    /// `--get`: report the current brightness.
    Get,
    /// `-l` / `--list`: list the displays.
    List,
}

/// A request whose value cannot be represented where it is needed.
#[derive(Clone, Copy, Debug, PartialEq, Eq, Structural)]
pub enum InputError {
    /// A decrease whose negation does not fit a relative offset.
    DecreaseOutOfRange(i16),
}

/// What the command line asks for.
#[derive(Clone, Copy, Debug, PartialEq, Eq, Structural)]
pub struct Args {
    pub action: Action,
    pub display: Option<usize>,
    pub list: bool,
}

impl Args {
    /// With no option: report the brightness of every display.
    pub fn new() -> (r: Args)
        ensures
            r == (Args { action: Action::Get, display: None, list: false }),
    {
        Args { action: Action::Get, display: None, list: false }
    }

    /// The request after one more option; a later action replaces an
    /// earlier one.
    pub open spec fn with(self, opt: Opt) -> Result<Args, InputError> {
        match opt {
            Opt::Display(n) => Ok(Args { display: Some(n), ..self }),
            Opt::Inc(n) => Ok(
                Args { action: Action::Change(BrightnessChange::Relative(n)), ..self },
            ),
            Opt::Dec(n) => if n == i16::MIN {
                Err(InputError::DecreaseOutOfRange(n))
            } else {
                Ok(Args { action: Action::Change(BrightnessChange::Relative((-n) as i16)), ..self })
            },
            Opt::SetTo(v) => Ok(Args { action: Action::Change(BrightnessChange::Absolute(v)), ..self }),
            Opt::Get => Ok(Args { action: Action::Get, ..self }),
            Opt::List => Ok(Args { list: true, ..self }),
        }
    }

    /// Takes one more option into the request. On an error the request is
    /// left as it was.
    pub fn accept(&mut self, opt: Opt) -> (r: Result<(), InputError>)
        ensures
            match old(self).with(opt) {
                Ok(a) => r is Ok && *final(self) == a,
                Err(e) => r == Err::<(), InputError>(e) && *final(self) == *old(self),
            },
    {
        match opt {
            Opt::Display(n) => self.display = Some(n),
            Opt::Inc(n) => self.action = Action::Change(BrightnessChange::Relative(n)),
            Opt::Dec(n) => {
                if n == i16::MIN {
                    return Err(InputError::DecreaseOutOfRange(n));
                }
                self.action = Action::Change(BrightnessChange::Relative(-n));
            },
            Opt::SetTo(v) => self.action = Action::Change(BrightnessChange::Absolute(v)),
            Opt::Get => self.action = Action::Get,
            Opt::List => self.list = true,
        }
        Ok(())
    }
}

} // verus!
