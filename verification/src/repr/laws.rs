//! What the representation of an MPDU and of its IEs is for.
//!
//! The laws speak of calls: each relates the arguments and the results of one or
//! more functions.

use vstd::prelude::*;

use crate::frame::addressing_repr::AddressingRepr;
use crate::frame::driver_config::{config_valid, DriverConfig};
use crate::repr::ies::{
    has_header_ie, has_nested_ie, kinds_of, lemma_has_push, sum_terminated, IeListRepr, IeRepr,
    IeReprList, IeReprWithTermination,
};
use crate::repr::mpdu::{MpduRepr, SecurityRepr, SeqNrRepr};
use crate::states::{
    MpduNoFields, MpduWithAddressing, MpduWithFrameControl, MpduWithIes, MpduWithSecurity,
};
use crate::Error;

verus! {

/// Each IE is as long as its descriptor of two octets and its content. Only a time
/// correction belongs to the header.
pub proof fn lemma_ie_lengths(
    channels: u8,
    time_correction: (u16, u16),
    reduced_hopping: (u16, u16),
    full_hopping: (u16, u16),
    sun_hopping: (u16, u16),
    sync: (u16, u16),
    reduced_timeslot: (u16, u16),
    full_timeslot: (u16, u16),
)
    requires
        call_ensures(IeRepr::<'_>::length, (&IeRepr::TimeCorrectionHeaderIe,), time_correction),
        call_ensures(
            IeRepr::<'_>::length,
            (&IeRepr::ReducedChannelHoppingNestedIe,),
            reduced_hopping,
        ),
        call_ensures(
            IeRepr::<'_>::length,
            (&IeRepr::FullChannelHoppingNestedIe(channels, false),),
            full_hopping,
        ),
        call_ensures(
            IeRepr::<'_>::length,
            (&IeRepr::FullChannelHoppingNestedIe(channels, true),),
            sun_hopping,
        ),
        call_ensures(IeRepr::<'_>::length, (&IeRepr::TschSynchronizationNestedIe,), sync),
        call_ensures(
            IeRepr::<'_>::length,
            (&IeRepr::ReducedTschTimeslotNestedIe,),
            reduced_timeslot,
        ),
        call_ensures(IeRepr::<'_>::length, (&IeRepr::FullTschTimeslotNestedIe,), full_timeslot),
    ensures
        time_correction == (4u16, 0u16),
        reduced_hopping == (0u16, 3u16),
        full_hopping.0 == 0 && full_hopping.1 == 14 + channels,
        sun_hopping.0 == 0 && sun_hopping.1 == 14 + channels + (channels as int + 7) / 8,
        sync == (0u16, 8u16),
        reduced_timeslot == (0u16, 3u16),
        full_timeslot == (0u16, 27u16),
{
}

/// A slotframe and link IE tells the number of slotframes in one octet. Each further
/// slotframe takes four octets, and five for each of its links.
pub proof fn lemma_slotframes_length(
    slotframes: &[u8],
    extended: &[u8],
    links: u8,
    length: (u16, u16),
    longer: (u16, u16),
)
    requires
        extended@ == slotframes@.push(links),
        call_ensures(
            IeRepr::<'_>::length,
            (&IeRepr::TschSlotframeAndLinkNestedIe(slotframes),),
            length,
        ),
        call_ensures(
            IeRepr::<'_>::length,
            (&IeRepr::TschSlotframeAndLinkNestedIe(extended),),
            longer,
        ),
    ensures
        slotframes@.len() == 0 ==> length.1 == 3,
        longer.1 == length.1 + 4 + 5 * links,
        length.0 == 0 && longer.0 == 0,
{
    assert(extended@.drop_last() =~= slotframes@);
}

/// A list of IEs grows by each IE that is added. The first nested IE adds the
/// descriptor of the payload IE that holds them and the termination of the header.
/// With a frame payload, the first nested IE also adds a termination of the payload
/// IEs, and the first header IE adds a termination unless there is one.
pub proof fn lemma_ie_added(
    list: IeReprList<'_, IeRepr<'_>>,
    longer: IeReprList<'_, IeRepr<'_>>,
    ie: IeRepr<'_>,
    payload: bool,
    length: u16,
    sum: u16,
    own: (u16, u16),
)
    requires
        longer.ies() == list.ies().push(ie),
        call_ensures(IeReprList::<'_, IeRepr<'_>>::ies_length, (&list, payload), length),
        call_ensures(IeReprList::<'_, IeRepr<'_>>::ies_length, (&longer, payload), sum),
        call_ensures(IeRepr::<'_>::length, (&ie,), own),
    ensures
        ({
            let had_header = exists|i: int|
                0 <= i < list.ies().len() && (#[trigger] list.ies()[i]) is TimeCorrectionHeaderIe;
            let had_nested = exists|i: int|
                0 <= i < list.ies().len()
                    && !((#[trigger] list.ies()[i]) is TimeCorrectionHeaderIe);
            &&& list.ies().len() == 0 ==> length == 0
            &&& ie is TimeCorrectionHeaderIe ==> sum == length + own.0 + (if payload && !had_header
                && !had_nested {
                2int
            } else {
                0
            })
            &&& !(ie is TimeCorrectionHeaderIe) && had_nested ==> sum == length + own.1
            &&& !(ie is TimeCorrectionHeaderIe) && !had_nested ==> sum == length + own.1 + (
            if payload && had_header {
                4int
            } else if payload {
                6
            } else {
                4
            })
        }),
{
    assert(longer.ies().drop_last() =~= list.ies());
    lemma_has_push(list.ies(), longer.ies());
    let had_header = exists|i: int|
        0 <= i < list.ies().len() && (#[trigger] list.ies()[i]) is TimeCorrectionHeaderIe;
    let had_nested = exists|i: int|
        0 <= i < list.ies().len() && !((#[trigger] list.ies()[i]) is TimeCorrectionHeaderIe);
    assert(had_header == has_header_ie(list.ies())) by {
        if had_header {
            let i = choose|i: int|
                0 <= i < list.ies().len() && (#[trigger] list.ies()[i]) is TimeCorrectionHeaderIe;
            assert(list.ies()[i].is_header());
        }
        if has_header_ie(list.ies()) {
            let i = choose|i: int|
                0 <= i < list.ies().len() && (#[trigger] list.ies()[i]).is_header();
            assert(list.ies()[i] is TimeCorrectionHeaderIe);
        }
    }
    assert(had_nested == has_nested_ie(list.ies())) by {
        if had_nested {
            let i = choose|i: int|
                0 <= i < list.ies().len()
                    && !((#[trigger] list.ies()[i]) is TimeCorrectionHeaderIe);
            assert(!list.ies()[i].is_header());
        }
        if has_nested_ie(list.ies()) {
            let i = choose|i: int|
                0 <= i < list.ies().len() && !(#[trigger] list.ies()[i]).is_header();
            assert(!(list.ies()[i] is TimeCorrectionHeaderIe));
        }
    }
}

/// Whether any element of a list is of a kind.
pub open spec fn any(
    list: Seq<IeReprWithTermination<'_>>,
    kind: spec_fn(IeReprWithTermination<'_>) -> bool,
) -> bool {
    exists|i: int| 0 <= i < list.len() && kind(#[trigger] list[i])
}

/// The kinds of elements that a list has.
proof fn lemma_kinds(list: Seq<IeReprWithTermination<'_>>)
    ensures
        ({
            let kinds = kinds_of(list);
            &&& kinds.header == any(
                list,
                |x: IeReprWithTermination<'_>|
                    x == IeReprWithTermination::NonTerminationIe(IeRepr::TimeCorrectionHeaderIe),
            )
            &&& kinds.nested == any(
                list,
                |x: IeReprWithTermination<'_>|
                    x is NonTerminationIe && x != IeReprWithTermination::NonTerminationIe(
                        IeRepr::TimeCorrectionHeaderIe,
                    ),
            )
            &&& kinds.header_termination_1 == any(
                list,
                |x: IeReprWithTermination<'_>| x is HeaderTerminationIe1,
            )
            &&& kinds.header_termination_2 == any(
                list,
                |x: IeReprWithTermination<'_>| x is HeaderTerminationIe2,
            )
            &&& kinds.payload_termination == any(
                list,
                |x: IeReprWithTermination<'_>| x is PayloadTerminationIe,
            )
        }),
{
}

/// A list with terminations is as long as its IEs, with two octets for each termination
/// and for the descriptor of the payload IE that holds nested IEs. Whether a frame
/// payload is expected is told by the terminations. With nested IEs there has to be the
/// first header termination, and a payload termination announces a frame payload.
/// Without any, there have to be header IEs and neither the first header termination,
/// unless there is the second one, nor a payload termination; the second header
/// termination announces a frame payload.
pub proof fn lemma_terminations_checked(
    list: IeReprList<'_, IeReprWithTermination<'_>>,
    r: Result<(u16, bool), Error>,
)
    requires
        call_ensures(
            IeReprList::<'_, IeReprWithTermination<'_>>::ies_length_and_payload_presence,
            (&list,),
            r,
        ),
    ensures
        ({
            let header = any(
                list.ies(),
                |x: IeReprWithTermination<'_>|
                    x == IeReprWithTermination::NonTerminationIe(IeRepr::TimeCorrectionHeaderIe),
            );
            let nested = any(
                list.ies(),
                |x: IeReprWithTermination<'_>|
                    x is NonTerminationIe && x != IeReprWithTermination::NonTerminationIe(
                        IeRepr::TimeCorrectionHeaderIe,
                    ),
            );
            let first = any(list.ies(), |x: IeReprWithTermination<'_>| x is HeaderTerminationIe1);
            let second = any(list.ies(), |x: IeReprWithTermination<'_>| x is HeaderTerminationIe2);
            let last = any(list.ies(), |x: IeReprWithTermination<'_>| x is PayloadTerminationIe);
            &&& nested && !first ==> r is Err
            &&& nested && first ==> (r matches Ok((length, payload))
                && payload == last && length == sum_terminated(list.ies()) + 2)
            &&& !nested && (!header || last) ==> r is Err
            &&& !nested && header && !last
                && second ==> (r matches Ok((length, payload)) && payload
                && length == sum_terminated(list.ies()))
            &&& !nested && header && !last
                && !second && first ==> r is Err
            &&& !nested && header && !last
                && !second && !first ==> (r matches Ok(
                (length, payload),
            ) && !payload && length == sum_terminated(list.ies()))
        }),
{
    lemma_kinds(list.ies());
}

/// The sum of a list with terminations grows by each of its elements.
pub proof fn lemma_terminated_sum(
    list: Seq<IeReprWithTermination<'_>>,
    element: IeReprWithTermination<'_>,
    own: (u16, u16),
)
    requires
        element matches IeReprWithTermination::NonTerminationIe(ie) ==> call_ensures(
            IeRepr::<'_>::length,
            (&ie,),
            own,
        ),
    ensures
        sum_terminated(Seq::empty()) == 0,
        sum_terminated(list.push(element)) == sum_terminated(list) + (
        if element is NonTerminationIe {
            own.0 + own.1
        } else {
            2
        }),
{
    assert(list.push(element).drop_last() =~= list);
}

/// A list of IEs holds the IEs that it was made of.
pub proof fn lemma_list_made<'a, Ie>(ies: &'a [Ie], list: IeReprList<'a, Ie>, back: &[Ie])
    requires
        call_ensures(IeReprList::<'a, Ie>::new, (ies,), list),
        call_ensures(IeReprList::<'a, Ie>::as_slice, (&list,), back),
    ensures
        back@ == ies@,
{
}

/// The length of a list is that of the IEs that it holds. Explicit terminations have to
/// agree with the presence of a frame payload.
pub proof fn lemma_list_length(
    plain: IeReprList<'_, IeRepr<'_>>,
    terminated: IeReprList<'_, IeReprWithTermination<'_>>,
    payload: bool,
    plain_length: u16,
    presence: Result<(u16, bool), Error>,
    of_empty: Result<u16, Error>,
    of_plain: Result<u16, Error>,
    of_terminated: Result<u16, Error>,
)
    requires
        call_ensures(IeReprList::<'_, IeRepr<'_>>::ies_length, (&plain, payload), plain_length),
        call_ensures(
            IeReprList::<'_, IeReprWithTermination<'_>>::ies_length_and_payload_presence,
            (&terminated,),
            presence,
        ),
        call_ensures(IeListRepr::<'_>::ies_length, (&IeListRepr::Empty, payload), of_empty),
        call_ensures(
            IeListRepr::<'_>::ies_length,
            (&IeListRepr::WithoutTerminationIes(plain), payload),
            of_plain,
        ),
        call_ensures(
            IeListRepr::<'_>::ies_length,
            (&IeListRepr::WithTerminationIes(terminated), payload),
            of_terminated,
        ),
    ensures
        of_empty == Ok::<u16, Error>(0u16),
        of_plain == Ok::<u16, Error>(plain_length),
        of_terminated is Ok <==> (presence matches Ok((_, expected)) && expected == payload),
        of_terminated matches Ok(length) ==> presence matches Ok((own, _)) && length == own,
{
}

/// IEs and a frame payload are told apart by explicit terminations: the payload is what
/// follows the IEs, and there has to be one exactly if they announce it. Without any
/// IE, all is payload. Without terminations, nothing can be told.
pub proof fn lemma_payload_told_apart(
    list: IeListRepr<'_>,
    total: u16,
    r: Result<(u16, u16), Error>,
    terminated: IeReprList<'_, IeReprWithTermination<'_>>,
    presence: Result<(u16, bool), Error>,
)
    requires
        call_ensures(
            IeListRepr::<'_>::try_ies_and_frame_payload_length,
            (&list, total),
            r,
        ),
        list matches IeListRepr::WithTerminationIes(own) ==> own == terminated,
        call_ensures(
            IeReprList::<'_, IeReprWithTermination<'_>>::ies_length_and_payload_presence,
            (&terminated,),
            presence,
        ),
    ensures
        list is Empty ==> r == Ok::<(u16, u16), Error>((0u16, total)),
        list is WithoutTerminationIes ==> r is Err,
        list is WithTerminationIes ==> {
            &&& r is Ok <==> (presence matches Ok((length, payload)) && (if payload {
                length < total
            } else {
                length == total
            }))
            &&& r matches Ok((ies, payload)) ==> ies + payload == total && ies == (
            presence->Ok_0).0
        },
{
}

/// Only an empty list is empty.
pub proof fn lemma_list_empty(list: IeListRepr<'_>, empty: bool)
    requires
        call_ensures(IeListRepr::<'_>::is_empty, (&list,), empty),
    ensures
        empty ==> list is Empty,
        list is WithTerminationIes || list is WithoutTerminationIes ==> !empty,
{
}

/// The length of an MPDU is the sum of the lengths of its fields: two octets of frame
/// control, an optional sequence number, addressing, security, IEs, payload and MIC. It
/// can be told if that of each field can and the sum does not exceed 16 bits.
pub proof fn lemma_mpdu_length<'repr>(
    repr: MpduRepr<'repr, MpduWithIes>,
    payload: u16,
    seq_nr: SeqNrRepr,
    addressing: Option<AddressingRepr>,
    security: Option<SecurityRepr>,
    ies: IeListRepr<'repr>,
    addressing_length: Result<u16, Error>,
    aux: u8,
    mic: u8,
    ies_length: Result<u16, Error>,
    r: Result<u16, Error>,
)
    requires
        call_ensures(MpduRepr::<'repr, MpduWithIes>::mpdu_length_wo_fcs, (&repr, payload), r),
        call_ensures(MpduRepr::<'repr, MpduWithIes>::seq_nr, (&repr,), seq_nr),
        call_ensures(MpduRepr::<'repr, MpduWithIes>::addressing, (&repr,), addressing),
        call_ensures(MpduRepr::<'repr, MpduWithIes>::security, (&repr,), security),
        call_ensures(MpduRepr::<'repr, MpduWithIes>::ies, (&repr,), ies),
        addressing matches Some(addressing) ==> call_ensures(
            AddressingRepr::addressing_fields_length,
            (&addressing,),
            addressing_length,
        ),
        addressing is None ==> addressing_length == Ok::<u16, Error>(0u16),
        security matches Some(security) ==> call_ensures(
            SecurityRepr::aux_sec_header_length,
            (&security,),
            aux,
        ) && call_ensures(SecurityRepr::mic_length, (&security,), mic),
        security is None ==> aux == 0 && mic == 0,
        call_ensures(IeListRepr::<'repr>::ies_length, (&ies, payload > 0), ies_length),
    ensures
        ({
            let sum = 2 + (if seq_nr == SeqNrRepr::Yes {
                1int
            } else {
                0
            }) + addressing_length->Ok_0 + aux + ies_length->Ok_0 + payload + mic;
            &&& r is Ok <==> addressing_length is Ok && ies_length is Ok && sum <= 0xffff
            &&& r matches Ok(length) ==> length == sum
        }),
{
}

/// A buffer for an MPDU holds it with its FCS and what the driver adds around it. There
/// is none if the MPDU is too long for the driver.
pub proof fn lemma_min_buffer_size<'repr, Config: DriverConfig>(
    repr: MpduRepr<'repr, MpduWithIes>,
    payload: u16,
    length: Result<u16, Error>,
    r: Result<u16, Error>,
)
    requires
        config_valid::<Config>(),
        call_ensures(MpduRepr::<'repr, MpduWithIes>::mpdu_length_wo_fcs, (&repr, payload), length),
        call_ensures(
            MpduRepr::<'repr, MpduWithIes>::min_buffer_size::<Config>,
            (&repr, payload),
            r,
        ),
    ensures
        r is Ok <==> (length matches Ok(length) && length + Config::FCS_LENGTH
            <= Config::MAX_SDU_LENGTH),
        r matches Ok(size) ==> size == Config::HEADROOM + length->Ok_0 + Config::FCS_LENGTH
            + Config::TAILROOM,
{
}

/// A representation has the fields that were added to it, and no others.
pub proof fn lemma_fields_added<'repr>(
    seq_nr: SeqNrRepr,
    addressing: AddressingRepr,
    security: SecurityRepr,
    ies: IeListRepr<'repr>,
    start: MpduRepr<'repr, MpduNoFields>,
    control: MpduRepr<'repr, MpduWithFrameControl>,
    addressed: MpduRepr<'repr, MpduWithAddressing>,
    secured: MpduRepr<'repr, MpduWithSecurity>,
    complete: MpduRepr<'repr, MpduWithIes>,
    none: (
        MpduRepr<'repr, MpduWithAddressing>,
        MpduRepr<'repr, MpduWithSecurity>,
        MpduRepr<'repr, MpduWithIes>,
    ),
)
    requires
        call_ensures(MpduRepr::<'repr, MpduNoFields>::new, (), start),
        call_ensures(
            MpduRepr::<'repr, MpduNoFields>::with_frame_control,
            (start, seq_nr),
            control,
        ),
        call_ensures(
            MpduRepr::<'repr, MpduWithFrameControl>::with_addressing,
            (control, addressing),
            addressed,
        ),
        call_ensures(
            MpduRepr::<'repr, MpduWithAddressing>::with_security,
            (addressed, security),
            secured,
        ),
        call_ensures(MpduRepr::<'repr, MpduWithSecurity>::with_ies, (secured, ies), complete),
        call_ensures(
            MpduRepr::<'repr, MpduWithFrameControl>::without_addressing,
            (control,),
            none.0,
        ),
        call_ensures(
            MpduRepr::<'repr, MpduWithAddressing>::without_security,
            (none.0,),
            none.1,
        ),
        call_ensures(MpduRepr::<'repr, MpduWithSecurity>::without_ies, (none.1,), none.2),
    ensures
        complete.seq() == seq_nr && complete.addr() == Some(addressing) && complete.sec() == Some(
            security,
        ) && complete.ie_list() == ies,
        none.2.seq() == seq_nr && none.2.addr() is None && none.2.sec() is None
            && none.2.ie_list() is Empty,
{
}

/// The security related fields have the lengths that they were given.
pub proof fn lemma_security_made(
    aux: u8,
    mic: u8,
    security: SecurityRepr,
    aux_length: u8,
    mic_length: u8,
)
    requires
        call_ensures(SecurityRepr::new, (aux, mic), security),
        call_ensures(SecurityRepr::aux_sec_header_length, (&security,), aux_length),
        call_ensures(SecurityRepr::mic_length, (&security,), mic_length),
    ensures
        aux_length == aux && mic_length == mic,
{
}

} // verus!
