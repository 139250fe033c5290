//! The parameters of an application: those of each of its components,
//! side by side, and how they are read from a message.
//!
//! What the parameters of a component are is that component's business.
//! Here they are values of types that the caller chooses.

use vstd::prelude::*;

verus! {

/// A component that has parameters.
#[derive(Clone, Copy, Debug, PartialEq, Eq, Structural)]
pub enum Component {
    CommunityPool,
    Distributions,
    Fee,
    Funding,
    Governance,
    Ibc,
    Sct,
    ShieldedPool,
    Stake,
}

/// The parameters of an application.
#[derive(Debug)]
pub struct AppParameters<CP, D, F, FU, G, I, S, SP, ST> {
    pub chain_id: String,
    pub community_pool_params: CP,
    pub distributions_params: D,
    pub fee_params: F,
    pub funding_params: FU,
    pub governance_params: G,
    pub ibc_params: I,
    pub sct_params: S,
    pub shielded_pool_params: SP,
    pub stake_params: ST,
}

/// One part of a message: what a component made of its parameters as the
/// message holds them.
#[derive(Debug)]
pub enum Part<T, E> {
    /// The message does not hold the part.
    Missing,
    /// The message holds the part, and the component refused it.
    Invalid(E),
    /// The message holds the part, and the component read it.
    Valid(T),
}

/// The parameters of an application as a message holds them: any part may
/// be missing or invalid.
#[derive(Debug)]
pub struct AppParametersMessage<CP, D, F, FU, G, I, S, SP, ST, E> {
    pub chain_id: String,
    pub community_pool_params: Part<CP, E>,
    pub distributions_params: Part<D, E>,
    pub fee_params: Part<F, E>,
    pub funding_params: Part<FU, E>,
    pub governance_params: Part<G, E>,
    pub ibc_params: Part<I, E>,
    pub sct_params: Part<S, E>,
    pub shielded_pool_params: Part<SP, E>,
    pub stake_params: Part<ST, E>,
}

/// The answer to a request for the parameters of an application: the
/// message, or nothing.
#[derive(Debug)]
pub struct AppParametersResponse<CP, D, F, FU, G, I, S, SP, ST, E> {
    pub app_parameters: Option<AppParametersMessage<CP, D, F, FU, G, I, S, SP, ST, E>>,
}

/// Why no parameters could be read.
#[derive(Debug)]
pub enum ParamsError<E> {
    /// The answer holds no message.
    EmptyResponse,
    /// The message does not hold the parameters of this component.
    Missing(Component),
    /// A component refused its parameters, for this reason.
    Invalid(E),
}

/// What a part gives: its parameters, or the reason why there are none.
pub open spec fn part_result<T, E>(part: Part<T, E>, component: Component) -> Result<
    T,
    ParamsError<E>,
> {
    match part {
        Part::Missing => Err(ParamsError::Missing(component)),
        Part::Invalid(reason) => Err(ParamsError::Invalid(reason)),
        Part::Valid(params) => Ok(params),
    }
}

/// What a part gives.
fn read_part<T, E>(part: Part<T, E>, component: Component) -> (result: Result<T, ParamsError<E>>)
    ensures
        result == part_result(part, component),
{
    match part {
        Part::Missing => Err(ParamsError::Missing(component)),
        Part::Invalid(reason) => Err(ParamsError::Invalid(reason)),
        Part::Valid(params) => Ok(params),
    }
}

/// What is said of a component whose parameters are missing.
pub open spec fn missing_text(component: Component) -> Seq<char> {
    match component {
        Component::CommunityPool => "proto response missing community pool params"@,
        Component::Distributions => "proto response missing distribution params"@,
        Component::Fee => "proto response missing fee params"@,
        Component::Funding => "proto response missing funding params"@,
        Component::Governance => "proto response missing governance params"@,
        Component::Ibc => "proto response missing ibc params"@,
        Component::Sct => "proto response missing sct params"@,
        Component::ShieldedPool => "proto response missing shielded pool params"@,
        Component::Stake => "proto response missing stake params"@,
    }
}

impl Component {
    /// What is said when the parameters of this component are missing.
    pub fn missing_message(&self) -> (text: &'static str)
        ensures
            text@ == missing_text(*self),
    {
        match self {
            Component::CommunityPool => "proto response missing community pool params",
            Component::Distributions => "proto response missing distribution params",
            Component::Fee => "proto response missing fee params",
            Component::Funding => "proto response missing funding params",
            Component::Governance => "proto response missing governance params",
            Component::Ibc => "proto response missing ibc params",
            Component::Sct => "proto response missing sct params",
            Component::ShieldedPool => "proto response missing shielded pool params",
            Component::Stake => "proto response missing stake params",
        }
    }
}

/// What is said of an answer that holds no message.
pub fn empty_response_message() -> (text: &'static str)
    ensures
        text@ == "empty AppParametersResponse message"@,
{
    "empty AppParametersResponse message"
}

/// Why a part gives no parameters, if it gives none.
pub open spec fn failure_of<T, E>(part: Part<T, E>, component: Component) -> Option<ParamsError<E>> {
    match part {
        Part::Missing => Some(ParamsError::Missing(component)),
        Part::Invalid(reason) => Some(ParamsError::Invalid(reason)),
        Part::Valid(_) => None,
    }
}

/// `first` if it is there, else `then`.
pub open spec fn or_else<E>(first: Option<ParamsError<E>>, then: Option<ParamsError<E>>) -> Option<
    ParamsError<E>,
> {
    if first is Some {
        first
    } else {
        then
    }
}

/// The first part of `msg`, in the order of its fields, that is missing or
/// invalid, and why; nothing if every part is valid.
pub open spec fn first_failure<CP, D, F, FU, G, I, S, SP, ST, E>(
    msg: AppParametersMessage<CP, D, F, FU, G, I, S, SP, ST, E>,
) -> Option<ParamsError<E>> {
    or_else(
        failure_of(msg.community_pool_params, Component::CommunityPool),
        or_else(
            failure_of(msg.distributions_params, Component::Distributions),
            or_else(
                failure_of(msg.fee_params, Component::Fee),
                or_else(
                    failure_of(msg.funding_params, Component::Funding),
                    or_else(
                        failure_of(msg.governance_params, Component::Governance),
                        or_else(
                            failure_of(msg.ibc_params, Component::Ibc),
                            or_else(
                                failure_of(msg.sct_params, Component::Sct),
                                or_else(
                                    failure_of(msg.shielded_pool_params, Component::ShieldedPool),
                                    failure_of(msg.stake_params, Component::Stake),
                                ),
                            ),
                        ),
                    ),
                ),
            ),
        ),
    )
}

/// The parameters that `msg` holds, where every part is valid.
pub open spec fn params_of<CP, D, F, FU, G, I, S, SP, ST, E>(
    msg: AppParametersMessage<CP, D, F, FU, G, I, S, SP, ST, E>,
) -> AppParameters<CP, D, F, FU, G, I, S, SP, ST>
    recommends
        first_failure(msg) is None,
{
    AppParameters {
        chain_id: msg.chain_id,
        community_pool_params: msg.community_pool_params->Valid_0,
        distributions_params: msg.distributions_params->Valid_0,
        fee_params: msg.fee_params->Valid_0,
        funding_params: msg.funding_params->Valid_0,
        governance_params: msg.governance_params->Valid_0,
        ibc_params: msg.ibc_params->Valid_0,
        sct_params: msg.sct_params->Valid_0,
        shielded_pool_params: msg.shielded_pool_params->Valid_0,
        stake_params: msg.stake_params->Valid_0,
    }
}

/// What reading `msg` gives: its parameters if and only if every part is
/// valid; otherwise the first part that is not, in the order of the
/// fields, says why not.
pub open spec fn read_message<CP, D, F, FU, G, I, S, SP, ST, E>(
    msg: AppParametersMessage<CP, D, F, FU, G, I, S, SP, ST, E>,
) -> Result<AppParameters<CP, D, F, FU, G, I, S, SP, ST>, ParamsError<E>> {
    match first_failure(msg) {
        Some(error) => Err(error),
        None => Ok(params_of(msg)),
    }
}

/// What reading `response` gives: what reading its message gives, and for
/// a response without a message that it is empty.
pub open spec fn read_response<CP, D, F, FU, G, I, S, SP, ST, E>(
    response: AppParametersResponse<CP, D, F, FU, G, I, S, SP, ST, E>,
) -> Result<AppParameters<CP, D, F, FU, G, I, S, SP, ST>, ParamsError<E>> {
    match response.app_parameters {
        Some(msg) => read_message(msg),
        None => Err(ParamsError::EmptyResponse),
    }
}

/// The message that holds `params`, every part valid.
pub open spec fn message_of<CP, D, F, FU, G, I, S, SP, ST, E>(
    params: AppParameters<CP, D, F, FU, G, I, S, SP, ST>,
) -> AppParametersMessage<CP, D, F, FU, G, I, S, SP, ST, E> {
    AppParametersMessage {
        chain_id: params.chain_id,
        community_pool_params: Part::Valid(params.community_pool_params),
        distributions_params: Part::Valid(params.distributions_params),
        fee_params: Part::Valid(params.fee_params),
        funding_params: Part::Valid(params.funding_params),
        governance_params: Part::Valid(params.governance_params),
        ibc_params: Part::Valid(params.ibc_params),
        sct_params: Part::Valid(params.sct_params),
        shielded_pool_params: Part::Valid(params.shielded_pool_params),
        stake_params: Part::Valid(params.stake_params),
    }
}

impl<CP, D, F, FU, G, I, S, SP, ST, E> TryFrom<
    AppParametersMessage<CP, D, F, FU, G, I, S, SP, ST, E>,
> for AppParameters<CP, D, F, FU, G, I, S, SP, ST> {
    type Error = ParamsError<E>;

    /// Reads the parameters from a message.
    fn try_from(msg: AppParametersMessage<CP, D, F, FU, G, I, S, SP, ST, E>) -> (result: Result<
        Self,
        ParamsError<E>,
    >) {
        let community_pool_params = match read_part(
            msg.community_pool_params,
            Component::CommunityPool,
        ) {
            Ok(params) => params,
            Err(error) => return Err(error),
        };
        let distributions_params = match read_part(
            msg.distributions_params,
            Component::Distributions,
        ) {
            Ok(params) => params,
            Err(error) => return Err(error),
        };
        let fee_params = match read_part(msg.fee_params, Component::Fee) {
            Ok(params) => params,
            Err(error) => return Err(error),
        };
        let funding_params = match read_part(msg.funding_params, Component::Funding) {
            Ok(params) => params,
            Err(error) => return Err(error),
        };
        let governance_params = match read_part(msg.governance_params, Component::Governance) {
            Ok(params) => params,
            Err(error) => return Err(error),
        };
        let ibc_params = match read_part(msg.ibc_params, Component::Ibc) {
            Ok(params) => params,
            Err(error) => return Err(error),
        };
        let sct_params = match read_part(msg.sct_params, Component::Sct) {
            Ok(params) => params,
            Err(error) => return Err(error),
        };
        let shielded_pool_params = match read_part(
            msg.shielded_pool_params,
            Component::ShieldedPool,
        ) {
            Ok(params) => params,
            Err(error) => return Err(error),
        };
        let stake_params = match read_part(msg.stake_params, Component::Stake) {
            Ok(params) => params,
            Err(error) => return Err(error),
        };
        Ok(
            AppParameters {
                chain_id: msg.chain_id,
                community_pool_params,
                distributions_params,
                fee_params,
                funding_params,
                governance_params,
                ibc_params,
                sct_params,
                shielded_pool_params,
                stake_params,
            },
        )
    }
}

impl<CP, D, F, FU, G, I, S, SP, ST, E> vstd::std_specs::convert::TryFromSpecImpl<
    AppParametersMessage<CP, D, F, FU, G, I, S, SP, ST, E>,
> for AppParameters<CP, D, F, FU, G, I, S, SP, ST> {
    open spec fn obeys_try_from_spec() -> bool {
        true
    }

    open spec fn try_from_spec(msg: AppParametersMessage<CP, D, F, FU, G, I, S, SP, ST, E>) -> Result<
        Self,
        ParamsError<E>,
    > {
        read_message(msg)
    }
}

impl<CP, D, F, FU, G, I, S, SP, ST, E> TryFrom<
    AppParametersResponse<CP, D, F, FU, G, I, S, SP, ST, E>,
> for AppParameters<CP, D, F, FU, G, I, S, SP, ST> {
    type Error = ParamsError<E>;

    /// Reads the parameters from the answer to a request for them.
    fn try_from(response: AppParametersResponse<CP, D, F, FU, G, I, S, SP, ST, E>) -> (result:
        Result<Self, ParamsError<E>>) {
        match response.app_parameters {
            Some(msg) => AppParameters::try_from(msg),
            None => Err(ParamsError::EmptyResponse),
        }
    }
}

impl<CP, D, F, FU, G, I, S, SP, ST, E> vstd::std_specs::convert::TryFromSpecImpl<
    AppParametersResponse<CP, D, F, FU, G, I, S, SP, ST, E>,
> for AppParameters<CP, D, F, FU, G, I, S, SP, ST> {
    open spec fn obeys_try_from_spec() -> bool {
        true
    }

    open spec fn try_from_spec(
        response: AppParametersResponse<CP, D, F, FU, G, I, S, SP, ST, E>,
    ) -> Result<Self, ParamsError<E>> {
        read_response(response)
    }
}

impl<CP, D, F, FU, G, I, S, SP, ST, E> From<
    AppParameters<CP, D, F, FU, G, I, S, SP, ST>,
> for AppParametersMessage<CP, D, F, FU, G, I, S, SP, ST, E> {
    /// The message that holds the parameters, every part valid.
    fn from(params: AppParameters<CP, D, F, FU, G, I, S, SP, ST>) -> (msg: Self) {
        AppParametersMessage {
            chain_id: params.chain_id,
            community_pool_params: Part::Valid(params.community_pool_params),
            distributions_params: Part::Valid(params.distributions_params),
            fee_params: Part::Valid(params.fee_params),
            funding_params: Part::Valid(params.funding_params),
            governance_params: Part::Valid(params.governance_params),
            ibc_params: Part::Valid(params.ibc_params),
            sct_params: Part::Valid(params.sct_params),
            shielded_pool_params: Part::Valid(params.shielded_pool_params),
            stake_params: Part::Valid(params.stake_params),
        }
    }
}

impl<CP, D, F, FU, G, I, S, SP, ST, E> vstd::std_specs::convert::FromSpecImpl<
    AppParameters<CP, D, F, FU, G, I, S, SP, ST>,
> for AppParametersMessage<CP, D, F, FU, G, I, S, SP, ST, E> {
    open spec fn obeys_from_spec() -> bool {
        true
    }

    open spec fn from_spec(params: AppParameters<CP, D, F, FU, G, I, S, SP, ST>) -> Self {
        message_of(params)
    }
}

/// What is written to a message and read back is what was written.
pub proof fn lemma_message_round_trip<CP, D, F, FU, G, I, S, SP, ST, E>(
    params: AppParameters<CP, D, F, FU, G, I, S, SP, ST>,
)
    ensures
        read_message(message_of::<CP, D, F, FU, G, I, S, SP, ST, E>(params)) == Ok::<
            AppParameters<CP, D, F, FU, G, I, S, SP, ST>,
            ParamsError<E>,
        >(params),
{
}

/// A message that can be read is the message of what was read from it.
pub proof fn lemma_read_message_is_whole<CP, D, F, FU, G, I, S, SP, ST, E>(
    msg: AppParametersMessage<CP, D, F, FU, G, I, S, SP, ST, E>,
)
    requires
        read_message(msg) is Ok,
    ensures
        message_of::<CP, D, F, FU, G, I, S, SP, ST, E>(read_message(msg)->Ok_0) == msg,
{
}

} // verus!
