use vstd::prelude::*;

verus! {

/// The stages of the request-processing chain, in the order in which they
/// must observe a request: the session binding materializes the session
/// record, the authentication derivation reads it, and only then is the
/// login-handling stage reachable.
#[derive(Clone, Copy, Debug, PartialEq, Eq, Structural)]
pub enum PipelineStage {
    SessionBinding,
    AuthDerivation,
    LoginHandling,
}

/// The one admissible ordering: session binding first, authentication
/// derivation second, login handling third.
pub open spec fn correctly_ordered(stages: Seq<PipelineStage>) -> bool {
    stages =~= seq![
        PipelineStage::SessionBinding,
        PipelineStage::AuthDerivation,
        PipelineStage::LoginHandling,
    ]
}

/// A chain under construction whose only stage is the session binding: the
/// starting point every composition must grow from, so that no later stage
/// can run before a session record exists.
pub struct SessionBoundChain {
    stages: Vec<PipelineStage>,
}

impl SessionBoundChain {
    /// The stages of the chain so far.
    pub closed spec fn view(self) -> Seq<PipelineStage> {
        self.stages@
    }

    /// Starts a composition: the session binding is the innermost stage.
    pub fn new() -> (c: SessionBoundChain)
        ensures
            c@ =~= seq![PipelineStage::SessionBinding],
    {
        let mut stages: Vec<PipelineStage> = Vec::new();
        stages.push(PipelineStage::SessionBinding);
        SessionBoundChain { stages }
    }

    /// Wraps the bound session in the authentication-derivation stage, which
    /// therefore always observes a materialized session.
    pub fn wrap_auth(self) -> (c: AuthBoundChain)
        ensures
            c@ =~= self@.push(PipelineStage::AuthDerivation),
    {
        let mut stages = self.stages;
        stages.push(PipelineStage::AuthDerivation);
        AuthBoundChain { stages }
    }
}

/// A chain whose session binding is already wrapped in the authentication
/// derivation; only the login-handling stage may still be added.
pub struct AuthBoundChain {
    stages: Vec<PipelineStage>,
}

impl AuthBoundChain {
    /// The stages of the chain so far.
    pub closed spec fn view(self) -> Seq<PipelineStage> {
        self.stages@
    }

    /// Completes the composition with the login-handling stage on top.
    pub fn wrap_login(self) -> (p: Pipeline)
        requires
            self@ =~= seq![PipelineStage::SessionBinding, PipelineStage::AuthDerivation],
        ensures
            correctly_ordered(p@),
    {
        let mut stages = self.stages;
        stages.push(PipelineStage::LoginHandling);
        Pipeline { stages }
    }
}

/// A completed request-processing chain. Values of this type can only come
/// out of `AuthBoundChain::wrap_login`, so every pipeline carries the three
/// stages in the one admissible order — an incorrect nesting cannot be
/// expressed.
pub struct Pipeline {
    stages: Vec<PipelineStage>,
}

impl Pipeline {
    #[verifier::type_invariant]
    spec fn ordered(self) -> bool {
        correctly_ordered(self.stages@)
    }

    /// The stages of the completed chain.
    pub closed spec fn view(self) -> Seq<PipelineStage> {
        self.stages@
    }

    /// Assembles the full pipeline in the fixed order.
    pub fn compose() -> (p: Pipeline)
        ensures
            correctly_ordered(p@),
    {
        SessionBoundChain::new().wrap_auth().wrap_login()
    }

    /// Hands out the stages, innermost first, for the surrounding transport
    /// layer to interpret.
    pub fn stages(&self) -> (v: Vec<PipelineStage>)
        ensures
            v@ =~= self@,
            correctly_ordered(v@),
    {
        proof {
            use_type_invariant(self);
        }
        let mut v: Vec<PipelineStage> = Vec::new();
        v.push(PipelineStage::SessionBinding);
        v.push(PipelineStage::AuthDerivation);
        v.push(PipelineStage::LoginHandling);
        v
    }
}

} // verus!
