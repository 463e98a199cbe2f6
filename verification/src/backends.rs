//! Backend serialization contract.
//!
//! A backend turns an ordered sequence of validated chart variants into a
//! self-contained textual artifact. Backends are selected by the [`Backend`]
//! identifier; each identifier maps to one implementing type of
//! [`Renderable`].

use vstd::prelude::*;

use crate::Plot;
use crate::error::RenderError;

pub mod plotly;

use plotly::Plotly;

verus! {

/// The serialization target chosen at assembly construction time.
#[derive(Debug, Clone, Copy, PartialEq, Eq, Structural)]
pub enum Backend {
    Plotly,
}

impl Backend {
    /// The implementing type behind this backend identifier.
    pub(crate) fn to_struct(self) -> (r: Plotly) {
        match self {
            Backend::Plotly => Plotly {  },
        }
    }
}

/// The polymorphic rendering contract: serializes the assembled chart
/// variants, in order, into a backend-specific artifact. Either a complete
/// artifact is produced or the call fails before any artifact is emitted;
/// there is no partial-serialization state.
pub trait Renderable: Sized {
    /// The artifact (or failure) this backend produces for a variant
    /// sequence and display flag.
    spec fn spec_render(&self, data: Seq<Plot>, display: bool) -> Result<Seq<char>, RenderError>;

    /// Serializes `data`, in order, into the backend's artifact.
    fn render(&self, data: &Vec<Plot>, display: bool) -> (r: Result<String, RenderError>)
        ensures
            match r {
                Ok(s) => self.spec_render(data@, display) matches Ok(t) && s@ == t,
                Err(e) => self.spec_render(data@, display) == Err::<Seq<char>, _>(e),
            },
    ;
}

} // verus!
