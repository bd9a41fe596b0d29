//! The registry: every message of the protocol by message id and revision,
//! and the framing of a message between its header and the NUL that ends it.

use crate::decode::{
    self, clamp, decodes, end_of, failure, got, mapped, parse_expected, Decode, Decoder,
    ErrorView, Parsed,
};
use crate::encode::{self, encoded, Encode, Encoder, Written};
use crate::faithful::{announces, holds, lemma_split, parsed, Faithful, Natural};
use crate::header::{lemma_header_width, Header, HEADER_LEN};
use crate::messages::{
    alarm, communication, job, keep_alive, link_communication, mode, multi_spindle_result,
    multi_spindle_status, parameter_set, powermacs_result, result, tightening_result, time,
    tool, user_interface, vin,
};
use vstd::prelude::*;
use vstd::string::*;

verus! {

/// Any message of the protocol: one variant for each message id and revision
/// that the registry knows, holding the payload.
#[derive(Debug, Eq, PartialEq)]
pub enum Message {
    MID9998rev1(link_communication::MID9998rev1),
    MID9997rev1(link_communication::MID9997rev1),
    MID0001rev1(communication::MID0001rev7),
    MID0001rev7(communication::MID0001rev7),
    MID0002rev1(communication::MID0002rev1),
    MID0002rev2(communication::MID0002rev2),
    MID0002rev3(communication::MID0002rev3),
    MID0002rev4(communication::MID0002rev4),
    MID0002rev5(communication::MID0002rev5),
    MID0002rev6(communication::MID0002rev6),
    MID0002rev7(communication::MID0002rev7),
    MID0003rev1(communication::MID0003rev1),
    MID0004rev1(communication::MID0004rev1),
    MID0004rev2(communication::MID0004rev2),
    MID0005rev1(communication::MID0005rev1),
    MID0006rev1(communication::MID0006rev1),
    MID0008rev1(communication::MID0008rev1),
    MID0009rev1(communication::MID0009rev1),
    MID0010rev1(parameter_set::MID0010rev1),
    MID0011rev1(parameter_set::MID0011rev1),
    MID0011rev2(parameter_set::MID0011rev2),
    MID0011rev3(parameter_set::MID0011rev3),
    MID0011rev4(parameter_set::MID0011rev4),
    MID0012rev1(parameter_set::MID0012rev1),
    MID0013rev1(parameter_set::MID0013rev1),
    MID0013rev2(parameter_set::MID0013rev2),
    MID0014rev1(parameter_set::MID0014rev1),
    MID0015rev1(parameter_set::MID0015rev1),
    MID0015rev2(parameter_set::MID0015rev2),
    MID0016rev1(parameter_set::MID0016rev1),
    MID0017rev1(parameter_set::MID0017rev1),
    MID0018rev1(parameter_set::MID0018rev1),
    MID0019rev1(parameter_set::MID0019rev1),
    MID0019rev2(parameter_set::MID0019rev2),
    MID0020rev1(parameter_set::MID0020rev1),
    MID0021rev1(parameter_set::MID0021rev1),
    MID0022rev1(parameter_set::MID0022rev1),
    MID2600rev1(mode::MID2600rev1),
    MID2601rev1(mode::MID2601rev1),
    MID2602rev1(mode::MID2602rev1),
    MID2603rev1(mode::MID2603rev1),
    MID2604rev1(mode::MID2604rev1),
    MID2605rev1(mode::MID2605rev1),
    MID2606rev1(mode::MID2606rev1),
    MID0030rev1(job::MID0030rev1),
    MID0031rev1(job::MID0031rev1),
    MID0031rev2(job::MID0031rev2),
    MID0032rev1(job::MID0032rev1),
    MID0032rev2(job::MID0032rev2),
    MID0033rev1(job::MID0033rev1),
    MID0034rev1(job::MID0034rev1),
    MID0035rev1(job::MID0035rev1),
    MID0036rev1(job::MID0036rev1),
    MID0037rev1(job::MID0037rev1),
    MID0038rev1(job::MID0038rev1),
    MID0038rev2(job::MID0038rev2),
    MID0039rev1(job::MID0039rev1),
    MID0039rev2(job::MID0039rev2),
    MID0040rev6(tool::MID0040rev6),
    MID0041rev1(tool::MID0041rev1),
    MID0041rev2(tool::MID0041rev2),
    MID0042rev2(tool::MID0042rev2),
    MID0043rev2(tool::MID0043rev2),
    MID0044rev1(tool::MID0044rev1),
    MID0045rev1(tool::MID0045rev1),
    MID0045rev2(tool::MID0045rev2),
    MID0046rev1(tool::MID0046rev1),
    MID0047rev1(tool::MID0047rev1),
    MID0048rev1(tool::MID0048rev1),
    MID0050rev1(vin::MID0050rev1),
    MID0051rev1(vin::MID0051rev1),
    MID0052rev1(vin::MID0052rev1),
    MID0052rev2(vin::MID0052rev2),
    MID0053rev1(vin::MID0053rev1),
    MID0054rev1(vin::MID0054rev1),
    MID0054rev2(vin::MID0054rev2),
    MID0060rev1(tightening_result::MID0060rev1),
    MID0061rev1(tightening_result::MID0061rev1),
    MID0061rev2(tightening_result::MID0061rev2),
    MID0061rev3(tightening_result::MID0061rev3),
    MID0062rev1(tightening_result::MID0062rev1),
    MID0063rev1(tightening_result::MID0063rev1),
    MID0064rev1(tightening_result::MID0064rev1),
    MID0065rev1(tightening_result::MID0065rev1),
    MID0066rev1(tightening_result::MID0066rev1),
    MID0066rev2(tightening_result::MID0066rev2),
    MID0067rev1(tightening_result::MID0067rev1),
    MID0900rev1(tightening_result::MID0900rev1),
    MID0900rev2(tightening_result::MID0900rev2),
    MID0900rev3(tightening_result::MID0900rev3),
    MID0901rev1(tightening_result::MID0901rev1),
    MID0901rev2(tightening_result::MID0901rev2),
    MID0901rev3(tightening_result::MID0901rev3),
    MID0902rev1(tightening_result::MID0902rev1),
    MID1201rev1(result::MID1201rev1),
    MID1201rev2(result::MID1201rev2),
    MID1201rev3(result::MID1201rev3),
    MID1202rev1(result::MID1202rev1),
    MID1202rev2(result::MID1202rev2),
    MID1203rev1(result::MID1203rev1),
    MID0070rev1(alarm::MID0070rev1),
    MID0071rev1(alarm::MID0071rev1),
    MID0072rev1(alarm::MID0072rev1),
    MID0073rev1(alarm::MID0073rev1),
    MID0074rev1(alarm::MID0074rev1),
    MID0075rev1(alarm::MID0075rev1),
    MID0076rev1(alarm::MID0076rev1),
    MID0077rev1(alarm::MID0077rev1),
    MID0078rev1(alarm::MID0078rev1),
    MID1000rev1(alarm::MID1000rev1),
    MID1001rev1(alarm::MID1001rev1),
    MID0080rev1(time::MID0080rev1),
    MID0081rev1(time::MID0081rev1),
    MID0082rev1(time::MID0082rev1),
    MID0090rev1(multi_spindle_status::MID0090rev1),
    MID0091rev1(multi_spindle_status::MID0091rev1),
    MID0092rev1(multi_spindle_status::MID0092rev1),
    MID0093rev1(multi_spindle_status::MID0093rev1),
    MID0100rev1(multi_spindle_result::MID0100rev1),
    MID0101rev1(multi_spindle_result::MID0101rev1),
    MID0102rev1(multi_spindle_result::MID0102rev1),
    MID0103rev1(multi_spindle_result::MID0103rev1),
    MID0104rev1(multi_spindle_result::MID0104rev1),
    MID0105rev1(powermacs_result::MID0105rev1),
    MID0106rev1(powermacs_result::MID0106rev1),
    MID0107rev1(powermacs_result::MID0107rev1),
    MID0108rev1(powermacs_result::MID0108rev1),
    MID0109rev1(powermacs_result::MID0109rev1),
    MID0110rev1(user_interface::MID0110rev1),
    MID0111rev1(user_interface::MID0111rev1),
    MID0113rev1(user_interface::MID0113rev1),
    MID9999rev1(keep_alive::MID9999rev1),
}

/// A [`Message`] as a mathematical value.
pub enum MessageView {
    MID9998rev1(link_communication::MID9998rev1),
    MID9997rev1(link_communication::MID9997rev1),
    MID0001rev1(communication::MID0001rev7),
    MID0001rev7(communication::MID0001rev7),
    MID0002rev1(communication::MID0002rev1View),
    MID0002rev2(communication::MID0002rev2View),
    MID0002rev3(communication::MID0002rev3View),
    MID0002rev4(communication::MID0002rev4View),
    MID0002rev5(communication::MID0002rev5View),
    MID0002rev6(communication::MID0002rev6View),
    MID0002rev7(communication::MID0002rev7View),
    MID0003rev1(communication::MID0003rev1),
    MID0004rev1(communication::MID0004rev1),
    MID0004rev2(communication::MID0004rev2),
    MID0005rev1(communication::MID0005rev1),
    MID0006rev1(communication::MID0006rev1View),
    MID0008rev1(communication::MID0008rev1View),
    MID0009rev1(communication::MID0009rev1View),
    MID0010rev1(parameter_set::MID0010rev1),
    MID0011rev1(parameter_set::MID0011rev1View),
    MID0011rev2(parameter_set::MID0011rev2View),
    MID0011rev3(parameter_set::MID0011rev3View),
    MID0011rev4(parameter_set::MID0011rev4View),
    MID0012rev1(parameter_set::MID0012rev1),
    MID0013rev1(parameter_set::MID0013rev1View),
    MID0013rev2(parameter_set::MID0013rev2View),
    MID0014rev1(parameter_set::MID0014rev1),
    MID0015rev1(parameter_set::MID0015rev1View),
    MID0015rev2(parameter_set::MID0015rev2View),
    MID0016rev1(parameter_set::MID0016rev1),
    MID0017rev1(parameter_set::MID0017rev1),
    MID0018rev1(parameter_set::MID0018rev1),
    MID0019rev1(parameter_set::MID0019rev1),
    MID0019rev2(parameter_set::MID0019rev2),
    MID0020rev1(parameter_set::MID0020rev1),
    MID0021rev1(parameter_set::MID0021rev1),
    MID0022rev1(parameter_set::MID0022rev1),
    MID2600rev1(mode::MID2600rev1),
    MID2601rev1(mode::MID2601rev1View),
    MID2602rev1(mode::MID2602rev1),
    MID2603rev1(mode::MID2603rev1View),
    MID2604rev1(mode::MID2604rev1),
    MID2605rev1(mode::MID2605rev1),
    MID2606rev1(mode::MID2606rev1),
    MID0030rev1(job::MID0030rev1),
    MID0031rev1(job::MID0031rev1View),
    MID0031rev2(job::MID0031rev2View),
    MID0032rev1(job::MID0032rev1),
    MID0032rev2(job::MID0032rev2),
    MID0033rev1(job::MID0033rev1View),
    MID0034rev1(job::MID0034rev1),
    MID0035rev1(job::MID0035rev1),
    MID0036rev1(job::MID0036rev1),
    MID0037rev1(job::MID0037rev1),
    MID0038rev1(job::MID0038rev1),
    MID0038rev2(job::MID0038rev2),
    MID0039rev1(job::MID0039rev1),
    MID0039rev2(job::MID0039rev2),
    MID0040rev6(tool::MID0040rev6),
    MID0041rev1(tool::MID0041rev1View),
    MID0041rev2(tool::MID0041rev2View),
    MID0042rev2(tool::MID0042rev2),
    MID0043rev2(tool::MID0043rev2),
    MID0044rev1(tool::MID0044rev1),
    MID0045rev1(tool::MID0045rev1),
    MID0045rev2(tool::MID0045rev2),
    MID0046rev1(tool::MID0046rev1),
    MID0047rev1(tool::MID0047rev1),
    MID0048rev1(tool::MID0048rev1),
    MID0050rev1(vin::MID0050rev1View),
    MID0051rev1(vin::MID0051rev1),
    MID0052rev1(vin::MID0052rev1View),
    MID0052rev2(vin::MID0052rev2View),
    MID0053rev1(vin::MID0053rev1),
    MID0054rev1(vin::MID0054rev1),
    MID0054rev2(vin::MID0054rev2),
    MID0060rev1(tightening_result::MID0060rev1),
    MID0061rev1(tightening_result::MID0061rev1View),
    MID0061rev2(tightening_result::MID0061rev2View),
    MID0061rev3(tightening_result::MID0061rev3View),
    MID0062rev1(tightening_result::MID0062rev1),
    MID0063rev1(tightening_result::MID0063rev1),
    MID0064rev1(tightening_result::MID0064rev1),
    MID0065rev1(tightening_result::MID0065rev1),
    MID0066rev1(tightening_result::MID0066rev1),
    MID0066rev2(tightening_result::MID0066rev2),
    MID0067rev1(tightening_result::MID0067rev1),
    MID0900rev1(tightening_result::MID0900rev1View),
    MID0900rev2(tightening_result::MID0900rev2View),
    MID0900rev3(tightening_result::MID0900rev3View),
    MID0901rev1(tightening_result::MID0901rev1),
    MID0901rev2(tightening_result::MID0901rev2),
    MID0901rev3(tightening_result::MID0901rev3),
    MID0902rev1(tightening_result::MID0902rev1View),
    MID1201rev1(result::MID1201rev1),
    MID1201rev2(result::MID1201rev2),
    MID1201rev3(result::MID1201rev3),
    MID1202rev1(result::MID1202rev1),
    MID1202rev2(result::MID1202rev2),
    MID1203rev1(result::MID1203rev1),
    MID0070rev1(alarm::MID0070rev1),
    MID0071rev1(alarm::MID0071rev1View),
    MID0072rev1(alarm::MID0072rev1),
    MID0073rev1(alarm::MID0073rev1),
    MID0074rev1(alarm::MID0074rev1View),
    MID0075rev1(alarm::MID0075rev1),
    MID0076rev1(alarm::MID0076rev1View),
    MID0077rev1(alarm::MID0077rev1),
    MID0078rev1(alarm::MID0078rev1View),
    MID1000rev1(alarm::MID1000rev1View),
    MID1001rev1(alarm::MID1001rev1),
    MID0080rev1(time::MID0080rev1),
    MID0081rev1(time::MID0081rev1),
    MID0082rev1(time::MID0082rev1),
    MID0090rev1(multi_spindle_status::MID0090rev1),
    MID0091rev1(multi_spindle_status::MID0091rev1View),
    MID0092rev1(multi_spindle_status::MID0092rev1),
    MID0093rev1(multi_spindle_status::MID0093rev1),
    MID0100rev1(multi_spindle_result::MID0100rev1),
    MID0101rev1(multi_spindle_result::MID0101rev1View),
    MID0102rev1(multi_spindle_result::MID0102rev1),
    MID0103rev1(multi_spindle_result::MID0103rev1),
    MID0104rev1(multi_spindle_result::MID0104rev1),
    MID0105rev1(powermacs_result::MID0105rev1),
    MID0106rev1(powermacs_result::MID0106rev1View),
    MID0107rev1(powermacs_result::MID0107rev1View),
    MID0108rev1(powermacs_result::MID0108rev1),
    MID0109rev1(powermacs_result::MID0109rev1),
    MID0110rev1(user_interface::MID0110rev1View),
    MID0111rev1(user_interface::MID0111rev1View),
    MID0113rev1(user_interface::MID0113rev1),
    MID9999rev1(keep_alive::MID9999rev1),
}

impl DeepView for Message {
    type V = MessageView;

    open spec fn deep_view(&self) -> MessageView {
        match self {
            Message::MID9998rev1(payload) => MessageView::MID9998rev1(payload.deep_view()),
            Message::MID9997rev1(payload) => MessageView::MID9997rev1(payload.deep_view()),
            Message::MID0001rev1(payload) => MessageView::MID0001rev1(payload.deep_view()),
            Message::MID0001rev7(payload) => MessageView::MID0001rev7(payload.deep_view()),
            Message::MID0002rev1(payload) => MessageView::MID0002rev1(payload.deep_view()),
            Message::MID0002rev2(payload) => MessageView::MID0002rev2(payload.deep_view()),
            Message::MID0002rev3(payload) => MessageView::MID0002rev3(payload.deep_view()),
            Message::MID0002rev4(payload) => MessageView::MID0002rev4(payload.deep_view()),
            Message::MID0002rev5(payload) => MessageView::MID0002rev5(payload.deep_view()),
            Message::MID0002rev6(payload) => MessageView::MID0002rev6(payload.deep_view()),
            Message::MID0002rev7(payload) => MessageView::MID0002rev7(payload.deep_view()),
            Message::MID0003rev1(payload) => MessageView::MID0003rev1(payload.deep_view()),
            Message::MID0004rev1(payload) => MessageView::MID0004rev1(payload.deep_view()),
            Message::MID0004rev2(payload) => MessageView::MID0004rev2(payload.deep_view()),
            Message::MID0005rev1(payload) => MessageView::MID0005rev1(payload.deep_view()),
            Message::MID0006rev1(payload) => MessageView::MID0006rev1(payload.deep_view()),
            Message::MID0008rev1(payload) => MessageView::MID0008rev1(payload.deep_view()),
            Message::MID0009rev1(payload) => MessageView::MID0009rev1(payload.deep_view()),
            Message::MID0010rev1(payload) => MessageView::MID0010rev1(payload.deep_view()),
            Message::MID0011rev1(payload) => MessageView::MID0011rev1(payload.deep_view()),
            Message::MID0011rev2(payload) => MessageView::MID0011rev2(payload.deep_view()),
            Message::MID0011rev3(payload) => MessageView::MID0011rev3(payload.deep_view()),
            Message::MID0011rev4(payload) => MessageView::MID0011rev4(payload.deep_view()),
            Message::MID0012rev1(payload) => MessageView::MID0012rev1(payload.deep_view()),
            Message::MID0013rev1(payload) => MessageView::MID0013rev1(payload.deep_view()),
            Message::MID0013rev2(payload) => MessageView::MID0013rev2(payload.deep_view()),
            Message::MID0014rev1(payload) => MessageView::MID0014rev1(payload.deep_view()),
            Message::MID0015rev1(payload) => MessageView::MID0015rev1(payload.deep_view()),
            Message::MID0015rev2(payload) => MessageView::MID0015rev2(payload.deep_view()),
            Message::MID0016rev1(payload) => MessageView::MID0016rev1(payload.deep_view()),
            Message::MID0017rev1(payload) => MessageView::MID0017rev1(payload.deep_view()),
            Message::MID0018rev1(payload) => MessageView::MID0018rev1(payload.deep_view()),
            Message::MID0019rev1(payload) => MessageView::MID0019rev1(payload.deep_view()),
            Message::MID0019rev2(payload) => MessageView::MID0019rev2(payload.deep_view()),
            Message::MID0020rev1(payload) => MessageView::MID0020rev1(payload.deep_view()),
            Message::MID0021rev1(payload) => MessageView::MID0021rev1(payload.deep_view()),
            Message::MID0022rev1(payload) => MessageView::MID0022rev1(payload.deep_view()),
            Message::MID2600rev1(payload) => MessageView::MID2600rev1(payload.deep_view()),
            Message::MID2601rev1(payload) => MessageView::MID2601rev1(payload.deep_view()),
            Message::MID2602rev1(payload) => MessageView::MID2602rev1(payload.deep_view()),
            Message::MID2603rev1(payload) => MessageView::MID2603rev1(payload.deep_view()),
            Message::MID2604rev1(payload) => MessageView::MID2604rev1(payload.deep_view()),
            Message::MID2605rev1(payload) => MessageView::MID2605rev1(payload.deep_view()),
            Message::MID2606rev1(payload) => MessageView::MID2606rev1(payload.deep_view()),
            Message::MID0030rev1(payload) => MessageView::MID0030rev1(payload.deep_view()),
            Message::MID0031rev1(payload) => MessageView::MID0031rev1(payload.deep_view()),
            Message::MID0031rev2(payload) => MessageView::MID0031rev2(payload.deep_view()),
            Message::MID0032rev1(payload) => MessageView::MID0032rev1(payload.deep_view()),
            Message::MID0032rev2(payload) => MessageView::MID0032rev2(payload.deep_view()),
            Message::MID0033rev1(payload) => MessageView::MID0033rev1(payload.deep_view()),
            Message::MID0034rev1(payload) => MessageView::MID0034rev1(payload.deep_view()),
            Message::MID0035rev1(payload) => MessageView::MID0035rev1(payload.deep_view()),
            Message::MID0036rev1(payload) => MessageView::MID0036rev1(payload.deep_view()),
            Message::MID0037rev1(payload) => MessageView::MID0037rev1(payload.deep_view()),
            Message::MID0038rev1(payload) => MessageView::MID0038rev1(payload.deep_view()),
            Message::MID0038rev2(payload) => MessageView::MID0038rev2(payload.deep_view()),
            Message::MID0039rev1(payload) => MessageView::MID0039rev1(payload.deep_view()),
            Message::MID0039rev2(payload) => MessageView::MID0039rev2(payload.deep_view()),
            Message::MID0040rev6(payload) => MessageView::MID0040rev6(payload.deep_view()),
            Message::MID0041rev1(payload) => MessageView::MID0041rev1(payload.deep_view()),
            Message::MID0041rev2(payload) => MessageView::MID0041rev2(payload.deep_view()),
            Message::MID0042rev2(payload) => MessageView::MID0042rev2(payload.deep_view()),
            Message::MID0043rev2(payload) => MessageView::MID0043rev2(payload.deep_view()),
            Message::MID0044rev1(payload) => MessageView::MID0044rev1(payload.deep_view()),
            Message::MID0045rev1(payload) => MessageView::MID0045rev1(payload.deep_view()),
            Message::MID0045rev2(payload) => MessageView::MID0045rev2(payload.deep_view()),
            Message::MID0046rev1(payload) => MessageView::MID0046rev1(payload.deep_view()),
            Message::MID0047rev1(payload) => MessageView::MID0047rev1(payload.deep_view()),
            Message::MID0048rev1(payload) => MessageView::MID0048rev1(payload.deep_view()),
            Message::MID0050rev1(payload) => MessageView::MID0050rev1(payload.deep_view()),
            Message::MID0051rev1(payload) => MessageView::MID0051rev1(payload.deep_view()),
            Message::MID0052rev1(payload) => MessageView::MID0052rev1(payload.deep_view()),
            Message::MID0052rev2(payload) => MessageView::MID0052rev2(payload.deep_view()),
            Message::MID0053rev1(payload) => MessageView::MID0053rev1(payload.deep_view()),
            Message::MID0054rev1(payload) => MessageView::MID0054rev1(payload.deep_view()),
            Message::MID0054rev2(payload) => MessageView::MID0054rev2(payload.deep_view()),
            Message::MID0060rev1(payload) => MessageView::MID0060rev1(payload.deep_view()),
            Message::MID0061rev1(payload) => MessageView::MID0061rev1(payload.deep_view()),
            Message::MID0061rev2(payload) => MessageView::MID0061rev2(payload.deep_view()),
            Message::MID0061rev3(payload) => MessageView::MID0061rev3(payload.deep_view()),
            Message::MID0062rev1(payload) => MessageView::MID0062rev1(payload.deep_view()),
            Message::MID0063rev1(payload) => MessageView::MID0063rev1(payload.deep_view()),
            Message::MID0064rev1(payload) => MessageView::MID0064rev1(payload.deep_view()),
            Message::MID0065rev1(payload) => MessageView::MID0065rev1(payload.deep_view()),
            Message::MID0066rev1(payload) => MessageView::MID0066rev1(payload.deep_view()),
            Message::MID0066rev2(payload) => MessageView::MID0066rev2(payload.deep_view()),
            Message::MID0067rev1(payload) => MessageView::MID0067rev1(payload.deep_view()),
            Message::MID0900rev1(payload) => MessageView::MID0900rev1(payload.deep_view()),
            Message::MID0900rev2(payload) => MessageView::MID0900rev2(payload.deep_view()),
            Message::MID0900rev3(payload) => MessageView::MID0900rev3(payload.deep_view()),
            Message::MID0901rev1(payload) => MessageView::MID0901rev1(payload.deep_view()),
            Message::MID0901rev2(payload) => MessageView::MID0901rev2(payload.deep_view()),
            Message::MID0901rev3(payload) => MessageView::MID0901rev3(payload.deep_view()),
            Message::MID0902rev1(payload) => MessageView::MID0902rev1(payload.deep_view()),
            Message::MID1201rev1(payload) => MessageView::MID1201rev1(payload.deep_view()),
            Message::MID1201rev2(payload) => MessageView::MID1201rev2(payload.deep_view()),
            Message::MID1201rev3(payload) => MessageView::MID1201rev3(payload.deep_view()),
            Message::MID1202rev1(payload) => MessageView::MID1202rev1(payload.deep_view()),
            Message::MID1202rev2(payload) => MessageView::MID1202rev2(payload.deep_view()),
            Message::MID1203rev1(payload) => MessageView::MID1203rev1(payload.deep_view()),
            Message::MID0070rev1(payload) => MessageView::MID0070rev1(payload.deep_view()),
            Message::MID0071rev1(payload) => MessageView::MID0071rev1(payload.deep_view()),
            Message::MID0072rev1(payload) => MessageView::MID0072rev1(payload.deep_view()),
            Message::MID0073rev1(payload) => MessageView::MID0073rev1(payload.deep_view()),
            Message::MID0074rev1(payload) => MessageView::MID0074rev1(payload.deep_view()),
            Message::MID0075rev1(payload) => MessageView::MID0075rev1(payload.deep_view()),
            Message::MID0076rev1(payload) => MessageView::MID0076rev1(payload.deep_view()),
            Message::MID0077rev1(payload) => MessageView::MID0077rev1(payload.deep_view()),
            Message::MID0078rev1(payload) => MessageView::MID0078rev1(payload.deep_view()),
            Message::MID1000rev1(payload) => MessageView::MID1000rev1(payload.deep_view()),
            Message::MID1001rev1(payload) => MessageView::MID1001rev1(payload.deep_view()),
            Message::MID0080rev1(payload) => MessageView::MID0080rev1(payload.deep_view()),
            Message::MID0081rev1(payload) => MessageView::MID0081rev1(payload.deep_view()),
            Message::MID0082rev1(payload) => MessageView::MID0082rev1(payload.deep_view()),
            Message::MID0090rev1(payload) => MessageView::MID0090rev1(payload.deep_view()),
            Message::MID0091rev1(payload) => MessageView::MID0091rev1(payload.deep_view()),
            Message::MID0092rev1(payload) => MessageView::MID0092rev1(payload.deep_view()),
            Message::MID0093rev1(payload) => MessageView::MID0093rev1(payload.deep_view()),
            Message::MID0100rev1(payload) => MessageView::MID0100rev1(payload.deep_view()),
            Message::MID0101rev1(payload) => MessageView::MID0101rev1(payload.deep_view()),
            Message::MID0102rev1(payload) => MessageView::MID0102rev1(payload.deep_view()),
            Message::MID0103rev1(payload) => MessageView::MID0103rev1(payload.deep_view()),
            Message::MID0104rev1(payload) => MessageView::MID0104rev1(payload.deep_view()),
            Message::MID0105rev1(payload) => MessageView::MID0105rev1(payload.deep_view()),
            Message::MID0106rev1(payload) => MessageView::MID0106rev1(payload.deep_view()),
            Message::MID0107rev1(payload) => MessageView::MID0107rev1(payload.deep_view()),
            Message::MID0108rev1(payload) => MessageView::MID0108rev1(payload.deep_view()),
            Message::MID0109rev1(payload) => MessageView::MID0109rev1(payload.deep_view()),
            Message::MID0110rev1(payload) => MessageView::MID0110rev1(payload.deep_view()),
            Message::MID0111rev1(payload) => MessageView::MID0111rev1(payload.deep_view()),
            Message::MID0113rev1(payload) => MessageView::MID0113rev1(payload.deep_view()),
            Message::MID9999rev1(payload) => MessageView::MID9999rev1(payload.deep_view()),
        }
    }
}

/// The groups that the protocol sorts its messages into.
#[derive(Debug, Clone, Copy, Eq, PartialEq)]
pub enum Group {
    LinkCommunication,
    Communication,
    ParameterSet,
    Mode,
    Job,
    Tool,
    Vin,
    TighteningResult,
    Result,
    Alarm,
    Time,
    MultiSpindleStatus,
    MultiSpindleResult,
    PowermacsResult,
    UserInterface,
    KeepAlive,
}

/// The group of the messages with the message id `mid`, if the registry
/// knows the id.
pub open spec fn group_of(mid: u16) -> Option<Group> {
    if mid == 9998 {
        Some(Group::LinkCommunication)
    } else if mid == 9997 {
        Some(Group::LinkCommunication)
    } else if mid == 1 {
        Some(Group::Communication)
    } else if mid == 2 {
        Some(Group::Communication)
    } else if mid == 3 {
        Some(Group::Communication)
    } else if mid == 4 {
        Some(Group::Communication)
    } else if mid == 5 {
        Some(Group::Communication)
    } else if mid == 6 {
        Some(Group::Communication)
    } else if mid == 8 {
        Some(Group::Communication)
    } else if mid == 9 {
        Some(Group::Communication)
    } else if mid == 10 {
        Some(Group::ParameterSet)
    } else if mid == 11 {
        Some(Group::ParameterSet)
    } else if mid == 12 {
        Some(Group::ParameterSet)
    } else if mid == 13 {
        Some(Group::ParameterSet)
    } else if mid == 14 {
        Some(Group::ParameterSet)
    } else if mid == 15 {
        Some(Group::ParameterSet)
    } else if mid == 16 {
        Some(Group::ParameterSet)
    } else if mid == 17 {
        Some(Group::ParameterSet)
    } else if mid == 18 {
        Some(Group::ParameterSet)
    } else if mid == 19 {
        Some(Group::ParameterSet)
    } else if mid == 20 {
        Some(Group::ParameterSet)
    } else if mid == 21 {
        Some(Group::ParameterSet)
    } else if mid == 22 {
        Some(Group::ParameterSet)
    } else if mid == 2600 {
        Some(Group::Mode)
    } else if mid == 2601 {
        Some(Group::Mode)
    } else if mid == 2602 {
        Some(Group::Mode)
    } else if mid == 2603 {
        Some(Group::Mode)
    } else if mid == 2604 {
        Some(Group::Mode)
    } else if mid == 2605 {
        Some(Group::Mode)
    } else if mid == 2606 {
        Some(Group::Mode)
    } else if mid == 30 {
        Some(Group::Job)
    } else if mid == 31 {
        Some(Group::Job)
    } else if mid == 32 {
        Some(Group::Job)
    } else if mid == 33 {
        Some(Group::Job)
    } else if mid == 34 {
        Some(Group::Job)
    } else if mid == 35 {
        Some(Group::Job)
    } else if mid == 36 {
        Some(Group::Job)
    } else if mid == 37 {
        Some(Group::Job)
    } else if mid == 38 {
        Some(Group::Job)
    } else if mid == 39 {
        Some(Group::Job)
    } else if mid == 40 {
        Some(Group::Tool)
    } else if mid == 41 {
        Some(Group::Tool)
    } else if mid == 42 {
        Some(Group::Tool)
    } else if mid == 43 {
        Some(Group::Tool)
    } else if mid == 44 {
        Some(Group::Tool)
    } else if mid == 45 {
        Some(Group::Tool)
    } else if mid == 46 {
        Some(Group::Tool)
    } else if mid == 47 {
        Some(Group::Tool)
    } else if mid == 48 {
        Some(Group::Tool)
    } else if mid == 50 {
        Some(Group::Vin)
    } else if mid == 51 {
        Some(Group::Vin)
    } else if mid == 52 {
        Some(Group::Vin)
    } else if mid == 53 {
        Some(Group::Vin)
    } else if mid == 54 {
        Some(Group::Vin)
    } else if mid == 60 {
        Some(Group::TighteningResult)
    } else if mid == 61 {
        Some(Group::TighteningResult)
    } else if mid == 62 {
        Some(Group::TighteningResult)
    } else if mid == 63 {
        Some(Group::TighteningResult)
    } else if mid == 64 {
        Some(Group::TighteningResult)
    } else if mid == 65 {
        Some(Group::TighteningResult)
    } else if mid == 66 {
        Some(Group::TighteningResult)
    } else if mid == 67 {
        Some(Group::TighteningResult)
    } else if mid == 900 {
        Some(Group::TighteningResult)
    } else if mid == 901 {
        Some(Group::TighteningResult)
    } else if mid == 902 {
        Some(Group::TighteningResult)
    } else if mid == 1201 {
        Some(Group::Result)
    } else if mid == 1202 {
        Some(Group::Result)
    } else if mid == 1203 {
        Some(Group::Result)
    } else if mid == 70 {
        Some(Group::Alarm)
    } else if mid == 71 {
        Some(Group::Alarm)
    } else if mid == 72 {
        Some(Group::Alarm)
    } else if mid == 73 {
        Some(Group::Alarm)
    } else if mid == 74 {
        Some(Group::Alarm)
    } else if mid == 75 {
        Some(Group::Alarm)
    } else if mid == 76 {
        Some(Group::Alarm)
    } else if mid == 77 {
        Some(Group::Alarm)
    } else if mid == 78 {
        Some(Group::Alarm)
    } else if mid == 1000 {
        Some(Group::Alarm)
    } else if mid == 1001 {
        Some(Group::Alarm)
    } else if mid == 80 {
        Some(Group::Time)
    } else if mid == 81 {
        Some(Group::Time)
    } else if mid == 82 {
        Some(Group::Time)
    } else if mid == 90 {
        Some(Group::MultiSpindleStatus)
    } else if mid == 91 {
        Some(Group::MultiSpindleStatus)
    } else if mid == 92 {
        Some(Group::MultiSpindleStatus)
    } else if mid == 93 {
        Some(Group::MultiSpindleStatus)
    } else if mid == 100 {
        Some(Group::MultiSpindleResult)
    } else if mid == 101 {
        Some(Group::MultiSpindleResult)
    } else if mid == 102 {
        Some(Group::MultiSpindleResult)
    } else if mid == 103 {
        Some(Group::MultiSpindleResult)
    } else if mid == 104 {
        Some(Group::MultiSpindleResult)
    } else if mid == 105 {
        Some(Group::PowermacsResult)
    } else if mid == 106 {
        Some(Group::PowermacsResult)
    } else if mid == 107 {
        Some(Group::PowermacsResult)
    } else if mid == 108 {
        Some(Group::PowermacsResult)
    } else if mid == 109 {
        Some(Group::PowermacsResult)
    } else if mid == 110 {
        Some(Group::UserInterface)
    } else if mid == 111 {
        Some(Group::UserInterface)
    } else if mid == 113 {
        Some(Group::UserInterface)
    } else if mid == 9999 {
        Some(Group::KeepAlive)
    } else {
        None
    }
}

/// The group of the messages with the message id `mid`, if the registry
/// knows the id.
pub fn group(mid: u16) -> (group: Option<Group>)
    ensures
        group == group_of(mid),
{
    if mid == 9998 {
        Some(Group::LinkCommunication)
    } else if mid == 9997 {
        Some(Group::LinkCommunication)
    } else if mid == 1 {
        Some(Group::Communication)
    } else if mid == 2 {
        Some(Group::Communication)
    } else if mid == 3 {
        Some(Group::Communication)
    } else if mid == 4 {
        Some(Group::Communication)
    } else if mid == 5 {
        Some(Group::Communication)
    } else if mid == 6 {
        Some(Group::Communication)
    } else if mid == 8 {
        Some(Group::Communication)
    } else if mid == 9 {
        Some(Group::Communication)
    } else if mid == 10 {
        Some(Group::ParameterSet)
    } else if mid == 11 {
        Some(Group::ParameterSet)
    } else if mid == 12 {
        Some(Group::ParameterSet)
    } else if mid == 13 {
        Some(Group::ParameterSet)
    } else if mid == 14 {
        Some(Group::ParameterSet)
    } else if mid == 15 {
        Some(Group::ParameterSet)
    } else if mid == 16 {
        Some(Group::ParameterSet)
    } else if mid == 17 {
        Some(Group::ParameterSet)
    } else if mid == 18 {
        Some(Group::ParameterSet)
    } else if mid == 19 {
        Some(Group::ParameterSet)
    } else if mid == 20 {
        Some(Group::ParameterSet)
    } else if mid == 21 {
        Some(Group::ParameterSet)
    } else if mid == 22 {
        Some(Group::ParameterSet)
    } else if mid == 2600 {
        Some(Group::Mode)
    } else if mid == 2601 {
        Some(Group::Mode)
    } else if mid == 2602 {
        Some(Group::Mode)
    } else if mid == 2603 {
        Some(Group::Mode)
    } else if mid == 2604 {
        Some(Group::Mode)
    } else if mid == 2605 {
        Some(Group::Mode)
    } else if mid == 2606 {
        Some(Group::Mode)
    } else if mid == 30 {
        Some(Group::Job)
    } else if mid == 31 {
        Some(Group::Job)
    } else if mid == 32 {
        Some(Group::Job)
    } else if mid == 33 {
        Some(Group::Job)
    } else if mid == 34 {
        Some(Group::Job)
    } else if mid == 35 {
        Some(Group::Job)
    } else if mid == 36 {
        Some(Group::Job)
    } else if mid == 37 {
        Some(Group::Job)
    } else if mid == 38 {
        Some(Group::Job)
    } else if mid == 39 {
        Some(Group::Job)
    } else if mid == 40 {
        Some(Group::Tool)
    } else if mid == 41 {
        Some(Group::Tool)
    } else if mid == 42 {
        Some(Group::Tool)
    } else if mid == 43 {
        Some(Group::Tool)
    } else if mid == 44 {
        Some(Group::Tool)
    } else if mid == 45 {
        Some(Group::Tool)
    } else if mid == 46 {
        Some(Group::Tool)
    } else if mid == 47 {
        Some(Group::Tool)
    } else if mid == 48 {
        Some(Group::Tool)
    } else if mid == 50 {
        Some(Group::Vin)
    } else if mid == 51 {
        Some(Group::Vin)
    } else if mid == 52 {
        Some(Group::Vin)
    } else if mid == 53 {
        Some(Group::Vin)
    } else if mid == 54 {
        Some(Group::Vin)
    } else if mid == 60 {
        Some(Group::TighteningResult)
    } else if mid == 61 {
        Some(Group::TighteningResult)
    } else if mid == 62 {
        Some(Group::TighteningResult)
    } else if mid == 63 {
        Some(Group::TighteningResult)
    } else if mid == 64 {
        Some(Group::TighteningResult)
    } else if mid == 65 {
        Some(Group::TighteningResult)
    } else if mid == 66 {
        Some(Group::TighteningResult)
    } else if mid == 67 {
        Some(Group::TighteningResult)
    } else if mid == 900 {
        Some(Group::TighteningResult)
    } else if mid == 901 {
        Some(Group::TighteningResult)
    } else if mid == 902 {
        Some(Group::TighteningResult)
    } else if mid == 1201 {
        Some(Group::Result)
    } else if mid == 1202 {
        Some(Group::Result)
    } else if mid == 1203 {
        Some(Group::Result)
    } else if mid == 70 {
        Some(Group::Alarm)
    } else if mid == 71 {
        Some(Group::Alarm)
    } else if mid == 72 {
        Some(Group::Alarm)
    } else if mid == 73 {
        Some(Group::Alarm)
    } else if mid == 74 {
        Some(Group::Alarm)
    } else if mid == 75 {
        Some(Group::Alarm)
    } else if mid == 76 {
        Some(Group::Alarm)
    } else if mid == 77 {
        Some(Group::Alarm)
    } else if mid == 78 {
        Some(Group::Alarm)
    } else if mid == 1000 {
        Some(Group::Alarm)
    } else if mid == 1001 {
        Some(Group::Alarm)
    } else if mid == 80 {
        Some(Group::Time)
    } else if mid == 81 {
        Some(Group::Time)
    } else if mid == 82 {
        Some(Group::Time)
    } else if mid == 90 {
        Some(Group::MultiSpindleStatus)
    } else if mid == 91 {
        Some(Group::MultiSpindleStatus)
    } else if mid == 92 {
        Some(Group::MultiSpindleStatus)
    } else if mid == 93 {
        Some(Group::MultiSpindleStatus)
    } else if mid == 100 {
        Some(Group::MultiSpindleResult)
    } else if mid == 101 {
        Some(Group::MultiSpindleResult)
    } else if mid == 102 {
        Some(Group::MultiSpindleResult)
    } else if mid == 103 {
        Some(Group::MultiSpindleResult)
    } else if mid == 104 {
        Some(Group::MultiSpindleResult)
    } else if mid == 105 {
        Some(Group::PowermacsResult)
    } else if mid == 106 {
        Some(Group::PowermacsResult)
    } else if mid == 107 {
        Some(Group::PowermacsResult)
    } else if mid == 108 {
        Some(Group::PowermacsResult)
    } else if mid == 109 {
        Some(Group::PowermacsResult)
    } else if mid == 110 {
        Some(Group::UserInterface)
    } else if mid == 111 {
        Some(Group::UserInterface)
    } else if mid == 113 {
        Some(Group::UserInterface)
    } else if mid == 9999 {
        Some(Group::KeepAlive)
    } else {
        None
    }
}

impl Message {
    /// The message id and the revision under which the message is registered.
    pub open spec fn ident(&self) -> (u16, u16) {
        match self {
            Message::MID9998rev1(_) => (9998, 1),
            Message::MID9997rev1(_) => (9997, 1),
            Message::MID0001rev1(_) => (1, 1),
            Message::MID0001rev7(_) => (1, 7),
            Message::MID0002rev1(_) => (2, 1),
            Message::MID0002rev2(_) => (2, 2),
            Message::MID0002rev3(_) => (2, 3),
            Message::MID0002rev4(_) => (2, 4),
            Message::MID0002rev5(_) => (2, 5),
            Message::MID0002rev6(_) => (2, 6),
            Message::MID0002rev7(_) => (2, 7),
            Message::MID0003rev1(_) => (3, 1),
            Message::MID0004rev1(_) => (4, 1),
            Message::MID0004rev2(_) => (4, 2),
            Message::MID0005rev1(_) => (5, 1),
            Message::MID0006rev1(_) => (6, 1),
            Message::MID0008rev1(_) => (8, 1),
            Message::MID0009rev1(_) => (9, 1),
            Message::MID0010rev1(_) => (10, 1),
            Message::MID0011rev1(_) => (11, 1),
            Message::MID0011rev2(_) => (11, 2),
            Message::MID0011rev3(_) => (11, 3),
            Message::MID0011rev4(_) => (11, 4),
            Message::MID0012rev1(_) => (12, 1),
            Message::MID0013rev1(_) => (13, 1),
            Message::MID0013rev2(_) => (13, 2),
            Message::MID0014rev1(_) => (14, 1),
            Message::MID0015rev1(_) => (15, 1),
            Message::MID0015rev2(_) => (15, 2),
            Message::MID0016rev1(_) => (16, 1),
            Message::MID0017rev1(_) => (17, 1),
            Message::MID0018rev1(_) => (18, 1),
            Message::MID0019rev1(_) => (19, 1),
            Message::MID0019rev2(_) => (19, 2),
            Message::MID0020rev1(_) => (20, 1),
            Message::MID0021rev1(_) => (21, 1),
            Message::MID0022rev1(_) => (22, 1),
            Message::MID2600rev1(_) => (2600, 1),
            Message::MID2601rev1(_) => (2601, 1),
            Message::MID2602rev1(_) => (2602, 1),
            Message::MID2603rev1(_) => (2603, 1),
            Message::MID2604rev1(_) => (2604, 1),
            Message::MID2605rev1(_) => (2605, 1),
            Message::MID2606rev1(_) => (2606, 1),
            Message::MID0030rev1(_) => (30, 1),
            Message::MID0031rev1(_) => (31, 1),
            Message::MID0031rev2(_) => (31, 2),
            Message::MID0032rev1(_) => (32, 1),
            Message::MID0032rev2(_) => (32, 2),
            Message::MID0033rev1(_) => (33, 1),
            Message::MID0034rev1(_) => (34, 1),
            Message::MID0035rev1(_) => (35, 1),
            Message::MID0036rev1(_) => (36, 1),
            Message::MID0037rev1(_) => (37, 1),
            Message::MID0038rev1(_) => (38, 1),
            Message::MID0038rev2(_) => (38, 2),
            Message::MID0039rev1(_) => (39, 1),
            Message::MID0039rev2(_) => (39, 2),
            Message::MID0040rev6(_) => (40, 6),
            Message::MID0041rev1(_) => (41, 1),
            Message::MID0041rev2(_) => (41, 2),
            Message::MID0042rev2(_) => (42, 2),
            Message::MID0043rev2(_) => (43, 2),
            Message::MID0044rev1(_) => (44, 1),
            Message::MID0045rev1(_) => (45, 1),
            Message::MID0045rev2(_) => (45, 2),
            Message::MID0046rev1(_) => (46, 1),
            Message::MID0047rev1(_) => (47, 1),
            Message::MID0048rev1(_) => (48, 1),
            Message::MID0050rev1(_) => (50, 1),
            Message::MID0051rev1(_) => (51, 1),
            Message::MID0052rev1(_) => (52, 1),
            Message::MID0052rev2(_) => (52, 2),
            Message::MID0053rev1(_) => (53, 1),
            Message::MID0054rev1(_) => (54, 1),
            Message::MID0054rev2(_) => (54, 2),
            Message::MID0060rev1(_) => (60, 1),
            Message::MID0061rev1(_) => (61, 1),
            Message::MID0061rev2(_) => (61, 2),
            Message::MID0061rev3(_) => (61, 3),
            Message::MID0062rev1(_) => (62, 1),
            Message::MID0063rev1(_) => (63, 1),
            Message::MID0064rev1(_) => (64, 1),
            Message::MID0065rev1(_) => (65, 1),
            Message::MID0066rev1(_) => (66, 1),
            Message::MID0066rev2(_) => (66, 2),
            Message::MID0067rev1(_) => (67, 1),
            Message::MID0900rev1(_) => (900, 1),
            Message::MID0900rev2(_) => (900, 2),
            Message::MID0900rev3(_) => (900, 3),
            Message::MID0901rev1(_) => (901, 1),
            Message::MID0901rev2(_) => (901, 2),
            Message::MID0901rev3(_) => (901, 3),
            Message::MID0902rev1(_) => (902, 1),
            Message::MID1201rev1(_) => (1201, 1),
            Message::MID1201rev2(_) => (1201, 2),
            Message::MID1201rev3(_) => (1201, 3),
            Message::MID1202rev1(_) => (1202, 1),
            Message::MID1202rev2(_) => (1202, 2),
            Message::MID1203rev1(_) => (1203, 1),
            Message::MID0070rev1(_) => (70, 1),
            Message::MID0071rev1(_) => (71, 1),
            Message::MID0072rev1(_) => (72, 1),
            Message::MID0073rev1(_) => (73, 1),
            Message::MID0074rev1(_) => (74, 1),
            Message::MID0075rev1(_) => (75, 1),
            Message::MID0076rev1(_) => (76, 1),
            Message::MID0077rev1(_) => (77, 1),
            Message::MID0078rev1(_) => (78, 1),
            Message::MID1000rev1(_) => (1000, 1),
            Message::MID1001rev1(_) => (1001, 1),
            Message::MID0080rev1(_) => (80, 1),
            Message::MID0081rev1(_) => (81, 1),
            Message::MID0082rev1(_) => (82, 1),
            Message::MID0090rev1(_) => (90, 1),
            Message::MID0091rev1(_) => (91, 1),
            Message::MID0092rev1(_) => (92, 1),
            Message::MID0093rev1(_) => (93, 1),
            Message::MID0100rev1(_) => (100, 1),
            Message::MID0101rev1(_) => (101, 1),
            Message::MID0102rev1(_) => (102, 1),
            Message::MID0103rev1(_) => (103, 1),
            Message::MID0104rev1(_) => (104, 1),
            Message::MID0105rev1(_) => (105, 1),
            Message::MID0106rev1(_) => (106, 1),
            Message::MID0107rev1(_) => (107, 1),
            Message::MID0108rev1(_) => (108, 1),
            Message::MID0109rev1(_) => (109, 1),
            Message::MID0110rev1(_) => (110, 1),
            Message::MID0111rev1(_) => (111, 1),
            Message::MID0113rev1(_) => (113, 1),
            Message::MID9999rev1(_) => (9999, 1),
        }
    }

    /// The message id and the revision under which the message is registered.
    pub fn mid_revision(&self) -> (ident: (u16, u16))
        ensures
            ident == self.ident(),
    {
        match self {
            Message::MID9998rev1(_) => (9998, 1),
            Message::MID9997rev1(_) => (9997, 1),
            Message::MID0001rev1(_) => (1, 1),
            Message::MID0001rev7(_) => (1, 7),
            Message::MID0002rev1(_) => (2, 1),
            Message::MID0002rev2(_) => (2, 2),
            Message::MID0002rev3(_) => (2, 3),
            Message::MID0002rev4(_) => (2, 4),
            Message::MID0002rev5(_) => (2, 5),
            Message::MID0002rev6(_) => (2, 6),
            Message::MID0002rev7(_) => (2, 7),
            Message::MID0003rev1(_) => (3, 1),
            Message::MID0004rev1(_) => (4, 1),
            Message::MID0004rev2(_) => (4, 2),
            Message::MID0005rev1(_) => (5, 1),
            Message::MID0006rev1(_) => (6, 1),
            Message::MID0008rev1(_) => (8, 1),
            Message::MID0009rev1(_) => (9, 1),
            Message::MID0010rev1(_) => (10, 1),
            Message::MID0011rev1(_) => (11, 1),
            Message::MID0011rev2(_) => (11, 2),
            Message::MID0011rev3(_) => (11, 3),
            Message::MID0011rev4(_) => (11, 4),
            Message::MID0012rev1(_) => (12, 1),
            Message::MID0013rev1(_) => (13, 1),
            Message::MID0013rev2(_) => (13, 2),
            Message::MID0014rev1(_) => (14, 1),
            Message::MID0015rev1(_) => (15, 1),
            Message::MID0015rev2(_) => (15, 2),
            Message::MID0016rev1(_) => (16, 1),
            Message::MID0017rev1(_) => (17, 1),
            Message::MID0018rev1(_) => (18, 1),
            Message::MID0019rev1(_) => (19, 1),
            Message::MID0019rev2(_) => (19, 2),
            Message::MID0020rev1(_) => (20, 1),
            Message::MID0021rev1(_) => (21, 1),
            Message::MID0022rev1(_) => (22, 1),
            Message::MID2600rev1(_) => (2600, 1),
            Message::MID2601rev1(_) => (2601, 1),
            Message::MID2602rev1(_) => (2602, 1),
            Message::MID2603rev1(_) => (2603, 1),
            Message::MID2604rev1(_) => (2604, 1),
            Message::MID2605rev1(_) => (2605, 1),
            Message::MID2606rev1(_) => (2606, 1),
            Message::MID0030rev1(_) => (30, 1),
            Message::MID0031rev1(_) => (31, 1),
            Message::MID0031rev2(_) => (31, 2),
            Message::MID0032rev1(_) => (32, 1),
            Message::MID0032rev2(_) => (32, 2),
            Message::MID0033rev1(_) => (33, 1),
            Message::MID0034rev1(_) => (34, 1),
            Message::MID0035rev1(_) => (35, 1),
            Message::MID0036rev1(_) => (36, 1),
            Message::MID0037rev1(_) => (37, 1),
            Message::MID0038rev1(_) => (38, 1),
            Message::MID0038rev2(_) => (38, 2),
            Message::MID0039rev1(_) => (39, 1),
            Message::MID0039rev2(_) => (39, 2),
            Message::MID0040rev6(_) => (40, 6),
            Message::MID0041rev1(_) => (41, 1),
            Message::MID0041rev2(_) => (41, 2),
            Message::MID0042rev2(_) => (42, 2),
            Message::MID0043rev2(_) => (43, 2),
            Message::MID0044rev1(_) => (44, 1),
            Message::MID0045rev1(_) => (45, 1),
            Message::MID0045rev2(_) => (45, 2),
            Message::MID0046rev1(_) => (46, 1),
            Message::MID0047rev1(_) => (47, 1),
            Message::MID0048rev1(_) => (48, 1),
            Message::MID0050rev1(_) => (50, 1),
            Message::MID0051rev1(_) => (51, 1),
            Message::MID0052rev1(_) => (52, 1),
            Message::MID0052rev2(_) => (52, 2),
            Message::MID0053rev1(_) => (53, 1),
            Message::MID0054rev1(_) => (54, 1),
            Message::MID0054rev2(_) => (54, 2),
            Message::MID0060rev1(_) => (60, 1),
            Message::MID0061rev1(_) => (61, 1),
            Message::MID0061rev2(_) => (61, 2),
            Message::MID0061rev3(_) => (61, 3),
            Message::MID0062rev1(_) => (62, 1),
            Message::MID0063rev1(_) => (63, 1),
            Message::MID0064rev1(_) => (64, 1),
            Message::MID0065rev1(_) => (65, 1),
            Message::MID0066rev1(_) => (66, 1),
            Message::MID0066rev2(_) => (66, 2),
            Message::MID0067rev1(_) => (67, 1),
            Message::MID0900rev1(_) => (900, 1),
            Message::MID0900rev2(_) => (900, 2),
            Message::MID0900rev3(_) => (900, 3),
            Message::MID0901rev1(_) => (901, 1),
            Message::MID0901rev2(_) => (901, 2),
            Message::MID0901rev3(_) => (901, 3),
            Message::MID0902rev1(_) => (902, 1),
            Message::MID1201rev1(_) => (1201, 1),
            Message::MID1201rev2(_) => (1201, 2),
            Message::MID1201rev3(_) => (1201, 3),
            Message::MID1202rev1(_) => (1202, 1),
            Message::MID1202rev2(_) => (1202, 2),
            Message::MID1203rev1(_) => (1203, 1),
            Message::MID0070rev1(_) => (70, 1),
            Message::MID0071rev1(_) => (71, 1),
            Message::MID0072rev1(_) => (72, 1),
            Message::MID0073rev1(_) => (73, 1),
            Message::MID0074rev1(_) => (74, 1),
            Message::MID0075rev1(_) => (75, 1),
            Message::MID0076rev1(_) => (76, 1),
            Message::MID0077rev1(_) => (77, 1),
            Message::MID0078rev1(_) => (78, 1),
            Message::MID1000rev1(_) => (1000, 1),
            Message::MID1001rev1(_) => (1001, 1),
            Message::MID0080rev1(_) => (80, 1),
            Message::MID0081rev1(_) => (81, 1),
            Message::MID0082rev1(_) => (82, 1),
            Message::MID0090rev1(_) => (90, 1),
            Message::MID0091rev1(_) => (91, 1),
            Message::MID0092rev1(_) => (92, 1),
            Message::MID0093rev1(_) => (93, 1),
            Message::MID0100rev1(_) => (100, 1),
            Message::MID0101rev1(_) => (101, 1),
            Message::MID0102rev1(_) => (102, 1),
            Message::MID0103rev1(_) => (103, 1),
            Message::MID0104rev1(_) => (104, 1),
            Message::MID0105rev1(_) => (105, 1),
            Message::MID0106rev1(_) => (106, 1),
            Message::MID0107rev1(_) => (107, 1),
            Message::MID0108rev1(_) => (108, 1),
            Message::MID0109rev1(_) => (109, 1),
            Message::MID0110rev1(_) => (110, 1),
            Message::MID0111rev1(_) => (111, 1),
            Message::MID0113rev1(_) => (113, 1),
            Message::MID9999rev1(_) => (9999, 1),
        }
    }

    /// Whether the registry knows the message id at the revision.
    pub open spec fn registered(mid: u16, revision: u16) -> bool {
        ||| (mid == 9998 && (revision == 1))
        ||| (mid == 9997 && (revision == 1))
        ||| (mid == 1 && (revision == 1 || revision == 7))
        ||| (mid == 2 && (
            revision == 1
            || revision == 2
            || revision == 3
            || revision == 4
            || revision == 5
            || revision == 6
            || revision == 7
        ))
        ||| (mid == 3 && (revision == 1))
        ||| (mid == 4 && (revision == 1 || revision == 2))
        ||| (mid == 5 && (revision == 1))
        ||| (mid == 6 && (revision == 1))
        ||| (mid == 8 && (revision == 1))
        ||| (mid == 9 && (revision == 1))
        ||| (mid == 10 && (revision == 1))
        ||| (mid == 11 && (revision == 1 || revision == 2 || revision == 3 || revision == 4))
        ||| (mid == 12 && (revision == 1))
        ||| (mid == 13 && (revision == 1 || revision == 2))
        ||| (mid == 14 && (revision == 1))
        ||| (mid == 15 && (revision == 1 || revision == 2))
        ||| (mid == 16 && (revision == 1))
        ||| (mid == 17 && (revision == 1))
        ||| (mid == 18 && (revision == 1))
        ||| (mid == 19 && (revision == 1 || revision == 2))
        ||| (mid == 20 && (revision == 1))
        ||| (mid == 21 && (revision == 1))
        ||| (mid == 22 && (revision == 1))
        ||| (mid == 2600 && (revision == 1))
        ||| (mid == 2601 && (revision == 1))
        ||| (mid == 2602 && (revision == 1))
        ||| (mid == 2603 && (revision == 1))
        ||| (mid == 2604 && (revision == 1))
        ||| (mid == 2605 && (revision == 1))
        ||| (mid == 2606 && (revision == 1))
        ||| (mid == 30 && (revision == 1))
        ||| (mid == 31 && (revision == 1 || revision == 2))
        ||| (mid == 32 && (revision == 1 || revision == 2))
        ||| (mid == 33 && (revision == 1))
        ||| (mid == 34 && (revision == 1))
        ||| (mid == 35 && (revision == 1))
        ||| (mid == 36 && (revision == 1))
        ||| (mid == 37 && (revision == 1))
        ||| (mid == 38 && (revision == 1 || revision == 2))
        ||| (mid == 39 && (revision == 1 || revision == 2))
        ||| (mid == 40 && (revision == 6))
        ||| (mid == 41 && (revision == 1 || revision == 2))
        ||| (mid == 42 && (revision == 2))
        ||| (mid == 43 && (revision == 2))
        ||| (mid == 44 && (revision == 1))
        ||| (mid == 45 && (revision == 1 || revision == 2))
        ||| (mid == 46 && (revision == 1))
        ||| (mid == 47 && (revision == 1))
        ||| (mid == 48 && (revision == 1))
        ||| (mid == 50 && (revision == 1))
        ||| (mid == 51 && (revision == 1))
        ||| (mid == 52 && (revision == 1 || revision == 2))
        ||| (mid == 53 && (revision == 1))
        ||| (mid == 54 && (revision == 1 || revision == 2))
        ||| (mid == 60 && (revision == 1))
        ||| (mid == 61 && (revision == 1 || revision == 2 || revision == 3))
        ||| (mid == 62 && (revision == 1))
        ||| (mid == 63 && (revision == 1))
        ||| (mid == 64 && (revision == 1))
        ||| (mid == 65 && (revision == 1))
        ||| (mid == 66 && (revision == 1 || revision == 2))
        ||| (mid == 67 && (revision == 1))
        ||| (mid == 900 && (revision == 1 || revision == 2 || revision == 3))
        ||| (mid == 901 && (revision == 1 || revision == 2 || revision == 3))
        ||| (mid == 902 && (revision == 1))
        ||| (mid == 1201 && (revision == 1 || revision == 2 || revision == 3))
        ||| (mid == 1202 && (revision == 1 || revision == 2))
        ||| (mid == 1203 && (revision == 1))
        ||| (mid == 70 && (revision == 1))
        ||| (mid == 71 && (revision == 1))
        ||| (mid == 72 && (revision == 1))
        ||| (mid == 73 && (revision == 1))
        ||| (mid == 74 && (revision == 1))
        ||| (mid == 75 && (revision == 1))
        ||| (mid == 76 && (revision == 1))
        ||| (mid == 77 && (revision == 1))
        ||| (mid == 78 && (revision == 1))
        ||| (mid == 1000 && (revision == 1))
        ||| (mid == 1001 && (revision == 1))
        ||| (mid == 80 && (revision == 1))
        ||| (mid == 81 && (revision == 1))
        ||| (mid == 82 && (revision == 1))
        ||| (mid == 90 && (revision == 1))
        ||| (mid == 91 && (revision == 1))
        ||| (mid == 92 && (revision == 1))
        ||| (mid == 93 && (revision == 1))
        ||| (mid == 100 && (revision == 1))
        ||| (mid == 101 && (revision == 1))
        ||| (mid == 102 && (revision == 1))
        ||| (mid == 103 && (revision == 1))
        ||| (mid == 104 && (revision == 1))
        ||| (mid == 105 && (revision == 1))
        ||| (mid == 106 && (revision == 1))
        ||| (mid == 107 && (revision == 1))
        ||| (mid == 108 && (revision == 1))
        ||| (mid == 109 && (revision == 1))
        ||| (mid == 110 && (revision == 1))
        ||| (mid == 111 && (revision == 1))
        ||| (mid == 113 && (revision == 1))
        ||| (mid == 9999 && (revision == 1))
    }

    /// Whether the payload registered under the message id and revision holds
    /// a timestamp.
    pub open spec fn zoned(mid: u16, revision: u16) -> bool {
        ||| (mid == 2604 && (revision == 1))
        ||| (mid == 35 && (revision == 1))
        ||| (mid == 41 && (revision == 1 || revision == 2))
        ||| (mid == 48 && (revision == 1))
        ||| (mid == 61 && (revision == 1 || revision == 2))
        ||| (mid == 900 && (revision == 1 || revision == 2 || revision == 3))
        ||| (mid == 902 && (revision == 1))
        ||| (mid == 71 && (revision == 1))
        ||| (mid == 76 && (revision == 1))
        ||| (mid == 1000 && (revision == 1))
        ||| (mid == 81 && (revision == 1))
        ||| (mid == 82 && (revision == 1))
        ||| (mid == 91 && (revision == 1))
        ||| (mid == 101 && (revision == 1))
        ||| (mid == 106 && (revision == 1))
    }

    /// Whether reading the payload registered under the message id and
    /// revision at `pos` reads a timestamp that ends at `at`.
    pub open spec fn stops_payload(
        mid: u16,
        revision: u16,
        bytes: Seq<u8>,
        pos: int,
        at: int,
    ) -> bool {
        if mid == 2604 {
            if revision == 1 {
                mode::MID2604rev1::stops(bytes, pos, at)
            } else {
                false
            }
        } else if mid == 35 {
            if revision == 1 {
                job::MID0035rev1::stops(bytes, pos, at)
            } else {
                false
            }
        } else if mid == 41 {
            if revision == 1 {
                tool::MID0041rev1::stops(bytes, pos, at)
            } else if revision == 2 {
                tool::MID0041rev2::stops(bytes, pos, at)
            } else {
                false
            }
        } else if mid == 48 {
            if revision == 1 {
                tool::MID0048rev1::stops(bytes, pos, at)
            } else {
                false
            }
        } else if mid == 61 {
            if revision == 1 {
                tightening_result::MID0061rev1::stops(bytes, pos, at)
            } else if revision == 2 {
                tightening_result::MID0061rev2::stops(bytes, pos, at)
            } else {
                false
            }
        } else if mid == 900 {
            if revision == 1 {
                tightening_result::MID0900rev1::stops(bytes, pos, at)
            } else if revision == 2 {
                tightening_result::MID0900rev2::stops(bytes, pos, at)
            } else if revision == 3 {
                tightening_result::MID0900rev3::stops(bytes, pos, at)
            } else {
                false
            }
        } else if mid == 902 {
            if revision == 1 {
                tightening_result::MID0902rev1::stops(bytes, pos, at)
            } else {
                false
            }
        } else if mid == 71 {
            if revision == 1 {
                alarm::MID0071rev1::stops(bytes, pos, at)
            } else {
                false
            }
        } else if mid == 76 {
            if revision == 1 {
                alarm::MID0076rev1::stops(bytes, pos, at)
            } else {
                false
            }
        } else if mid == 1000 {
            if revision == 1 {
                alarm::MID1000rev1::stops(bytes, pos, at)
            } else {
                false
            }
        } else if mid == 81 {
            if revision == 1 {
                time::MID0081rev1::stops(bytes, pos, at)
            } else {
                false
            }
        } else if mid == 82 {
            if revision == 1 {
                time::MID0082rev1::stops(bytes, pos, at)
            } else {
                false
            }
        } else if mid == 91 {
            if revision == 1 {
                multi_spindle_status::MID0091rev1::stops(bytes, pos, at)
            } else {
                false
            }
        } else if mid == 101 {
            if revision == 1 {
                multi_spindle_result::MID0101rev1::stops(bytes, pos, at)
            } else {
                false
            }
        } else if mid == 106 {
            if revision == 1 {
                powermacs_result::MID0106rev1::stops(bytes, pos, at)
            } else {
                false
            }
        } else {
            false
        }
    }

    /// Writing the payload of the message.
    pub open spec fn wire_payload(&self) -> Written {
        match self {
            Message::MID9998rev1(payload) => payload.wire(),
            Message::MID9997rev1(payload) => payload.wire(),
            Message::MID0001rev1(payload) => payload.wire(),
            Message::MID0001rev7(payload) => payload.wire(),
            Message::MID0002rev1(payload) => payload.wire(),
            Message::MID0002rev2(payload) => payload.wire(),
            Message::MID0002rev3(payload) => payload.wire(),
            Message::MID0002rev4(payload) => payload.wire(),
            Message::MID0002rev5(payload) => payload.wire(),
            Message::MID0002rev6(payload) => payload.wire(),
            Message::MID0002rev7(payload) => payload.wire(),
            Message::MID0003rev1(payload) => payload.wire(),
            Message::MID0004rev1(payload) => payload.wire(),
            Message::MID0004rev2(payload) => payload.wire(),
            Message::MID0005rev1(payload) => payload.wire(),
            Message::MID0006rev1(payload) => payload.wire(),
            Message::MID0008rev1(payload) => payload.wire(),
            Message::MID0009rev1(payload) => payload.wire(),
            Message::MID0010rev1(payload) => payload.wire(),
            Message::MID0011rev1(payload) => payload.wire(),
            Message::MID0011rev2(payload) => payload.wire(),
            Message::MID0011rev3(payload) => payload.wire(),
            Message::MID0011rev4(payload) => payload.wire(),
            Message::MID0012rev1(payload) => payload.wire(),
            Message::MID0013rev1(payload) => payload.wire(),
            Message::MID0013rev2(payload) => payload.wire(),
            Message::MID0014rev1(payload) => payload.wire(),
            Message::MID0015rev1(payload) => payload.wire(),
            Message::MID0015rev2(payload) => payload.wire(),
            Message::MID0016rev1(payload) => payload.wire(),
            Message::MID0017rev1(payload) => payload.wire(),
            Message::MID0018rev1(payload) => payload.wire(),
            Message::MID0019rev1(payload) => payload.wire(),
            Message::MID0019rev2(payload) => payload.wire(),
            Message::MID0020rev1(payload) => payload.wire(),
            Message::MID0021rev1(payload) => payload.wire(),
            Message::MID0022rev1(payload) => payload.wire(),
            Message::MID2600rev1(payload) => payload.wire(),
            Message::MID2601rev1(payload) => payload.wire(),
            Message::MID2602rev1(payload) => payload.wire(),
            Message::MID2603rev1(payload) => payload.wire(),
            Message::MID2604rev1(payload) => payload.wire(),
            Message::MID2605rev1(payload) => payload.wire(),
            Message::MID2606rev1(payload) => payload.wire(),
            Message::MID0030rev1(payload) => payload.wire(),
            Message::MID0031rev1(payload) => payload.wire(),
            Message::MID0031rev2(payload) => payload.wire(),
            Message::MID0032rev1(payload) => payload.wire(),
            Message::MID0032rev2(payload) => payload.wire(),
            Message::MID0033rev1(payload) => payload.wire(),
            Message::MID0034rev1(payload) => payload.wire(),
            Message::MID0035rev1(payload) => payload.wire(),
            Message::MID0036rev1(payload) => payload.wire(),
            Message::MID0037rev1(payload) => payload.wire(),
            Message::MID0038rev1(payload) => payload.wire(),
            Message::MID0038rev2(payload) => payload.wire(),
            Message::MID0039rev1(payload) => payload.wire(),
            Message::MID0039rev2(payload) => payload.wire(),
            Message::MID0040rev6(payload) => payload.wire(),
            Message::MID0041rev1(payload) => payload.wire(),
            Message::MID0041rev2(payload) => payload.wire(),
            Message::MID0042rev2(payload) => payload.wire(),
            Message::MID0043rev2(payload) => payload.wire(),
            Message::MID0044rev1(payload) => payload.wire(),
            Message::MID0045rev1(payload) => payload.wire(),
            Message::MID0045rev2(payload) => payload.wire(),
            Message::MID0046rev1(payload) => payload.wire(),
            Message::MID0047rev1(payload) => payload.wire(),
            Message::MID0048rev1(payload) => payload.wire(),
            Message::MID0050rev1(payload) => payload.wire(),
            Message::MID0051rev1(payload) => payload.wire(),
            Message::MID0052rev1(payload) => payload.wire(),
            Message::MID0052rev2(payload) => payload.wire(),
            Message::MID0053rev1(payload) => payload.wire(),
            Message::MID0054rev1(payload) => payload.wire(),
            Message::MID0054rev2(payload) => payload.wire(),
            Message::MID0060rev1(payload) => payload.wire(),
            Message::MID0061rev1(payload) => payload.wire(),
            Message::MID0061rev2(payload) => payload.wire(),
            Message::MID0061rev3(payload) => payload.wire(),
            Message::MID0062rev1(payload) => payload.wire(),
            Message::MID0063rev1(payload) => payload.wire(),
            Message::MID0064rev1(payload) => payload.wire(),
            Message::MID0065rev1(payload) => payload.wire(),
            Message::MID0066rev1(payload) => payload.wire(),
            Message::MID0066rev2(payload) => payload.wire(),
            Message::MID0067rev1(payload) => payload.wire(),
            Message::MID0900rev1(payload) => payload.wire(),
            Message::MID0900rev2(payload) => payload.wire(),
            Message::MID0900rev3(payload) => payload.wire(),
            Message::MID0901rev1(payload) => payload.wire(),
            Message::MID0901rev2(payload) => payload.wire(),
            Message::MID0901rev3(payload) => payload.wire(),
            Message::MID0902rev1(payload) => payload.wire(),
            Message::MID1201rev1(payload) => payload.wire(),
            Message::MID1201rev2(payload) => payload.wire(),
            Message::MID1201rev3(payload) => payload.wire(),
            Message::MID1202rev1(payload) => payload.wire(),
            Message::MID1202rev2(payload) => payload.wire(),
            Message::MID1203rev1(payload) => payload.wire(),
            Message::MID0070rev1(payload) => payload.wire(),
            Message::MID0071rev1(payload) => payload.wire(),
            Message::MID0072rev1(payload) => payload.wire(),
            Message::MID0073rev1(payload) => payload.wire(),
            Message::MID0074rev1(payload) => payload.wire(),
            Message::MID0075rev1(payload) => payload.wire(),
            Message::MID0076rev1(payload) => payload.wire(),
            Message::MID0077rev1(payload) => payload.wire(),
            Message::MID0078rev1(payload) => payload.wire(),
            Message::MID1000rev1(payload) => payload.wire(),
            Message::MID1001rev1(payload) => payload.wire(),
            Message::MID0080rev1(payload) => payload.wire(),
            Message::MID0081rev1(payload) => payload.wire(),
            Message::MID0082rev1(payload) => payload.wire(),
            Message::MID0090rev1(payload) => payload.wire(),
            Message::MID0091rev1(payload) => payload.wire(),
            Message::MID0092rev1(payload) => payload.wire(),
            Message::MID0093rev1(payload) => payload.wire(),
            Message::MID0100rev1(payload) => payload.wire(),
            Message::MID0101rev1(payload) => payload.wire(),
            Message::MID0102rev1(payload) => payload.wire(),
            Message::MID0103rev1(payload) => payload.wire(),
            Message::MID0104rev1(payload) => payload.wire(),
            Message::MID0105rev1(payload) => payload.wire(),
            Message::MID0106rev1(payload) => payload.wire(),
            Message::MID0107rev1(payload) => payload.wire(),
            Message::MID0108rev1(payload) => payload.wire(),
            Message::MID0109rev1(payload) => payload.wire(),
            Message::MID0110rev1(payload) => payload.wire(),
            Message::MID0111rev1(payload) => payload.wire(),
            Message::MID0113rev1(payload) => payload.wire(),
            Message::MID9999rev1(payload) => payload.wire(),
        }
    }

    /// Appends the payload of the message to the encoder.
    pub fn encode_payload(&self, encoder: &mut Encoder) -> (r: encode::Result<()>)
        ensures
            encoded(old(encoder)@, final(encoder)@, r, self.wire_payload()),
    {
        match self {
            Message::MID9998rev1(payload) => payload.encode(encoder),
            Message::MID9997rev1(payload) => payload.encode(encoder),
            Message::MID0001rev1(payload) => payload.encode(encoder),
            Message::MID0001rev7(payload) => payload.encode(encoder),
            Message::MID0002rev1(payload) => payload.encode(encoder),
            Message::MID0002rev2(payload) => payload.encode(encoder),
            Message::MID0002rev3(payload) => payload.encode(encoder),
            Message::MID0002rev4(payload) => payload.encode(encoder),
            Message::MID0002rev5(payload) => payload.encode(encoder),
            Message::MID0002rev6(payload) => payload.encode(encoder),
            Message::MID0002rev7(payload) => payload.encode(encoder),
            Message::MID0003rev1(payload) => payload.encode(encoder),
            Message::MID0004rev1(payload) => payload.encode(encoder),
            Message::MID0004rev2(payload) => payload.encode(encoder),
            Message::MID0005rev1(payload) => payload.encode(encoder),
            Message::MID0006rev1(payload) => payload.encode(encoder),
            Message::MID0008rev1(payload) => payload.encode(encoder),
            Message::MID0009rev1(payload) => payload.encode(encoder),
            Message::MID0010rev1(payload) => payload.encode(encoder),
            Message::MID0011rev1(payload) => payload.encode(encoder),
            Message::MID0011rev2(payload) => payload.encode(encoder),
            Message::MID0011rev3(payload) => payload.encode(encoder),
            Message::MID0011rev4(payload) => payload.encode(encoder),
            Message::MID0012rev1(payload) => payload.encode(encoder),
            Message::MID0013rev1(payload) => payload.encode(encoder),
            Message::MID0013rev2(payload) => payload.encode(encoder),
            Message::MID0014rev1(payload) => payload.encode(encoder),
            Message::MID0015rev1(payload) => payload.encode(encoder),
            Message::MID0015rev2(payload) => payload.encode(encoder),
            Message::MID0016rev1(payload) => payload.encode(encoder),
            Message::MID0017rev1(payload) => payload.encode(encoder),
            Message::MID0018rev1(payload) => payload.encode(encoder),
            Message::MID0019rev1(payload) => payload.encode(encoder),
            Message::MID0019rev2(payload) => payload.encode(encoder),
            Message::MID0020rev1(payload) => payload.encode(encoder),
            Message::MID0021rev1(payload) => payload.encode(encoder),
            Message::MID0022rev1(payload) => payload.encode(encoder),
            Message::MID2600rev1(payload) => payload.encode(encoder),
            Message::MID2601rev1(payload) => payload.encode(encoder),
            Message::MID2602rev1(payload) => payload.encode(encoder),
            Message::MID2603rev1(payload) => payload.encode(encoder),
            Message::MID2604rev1(payload) => payload.encode(encoder),
            Message::MID2605rev1(payload) => payload.encode(encoder),
            Message::MID2606rev1(payload) => payload.encode(encoder),
            Message::MID0030rev1(payload) => payload.encode(encoder),
            Message::MID0031rev1(payload) => payload.encode(encoder),
            Message::MID0031rev2(payload) => payload.encode(encoder),
            Message::MID0032rev1(payload) => payload.encode(encoder),
            Message::MID0032rev2(payload) => payload.encode(encoder),
            Message::MID0033rev1(payload) => payload.encode(encoder),
            Message::MID0034rev1(payload) => payload.encode(encoder),
            Message::MID0035rev1(payload) => payload.encode(encoder),
            Message::MID0036rev1(payload) => payload.encode(encoder),
            Message::MID0037rev1(payload) => payload.encode(encoder),
            Message::MID0038rev1(payload) => payload.encode(encoder),
            Message::MID0038rev2(payload) => payload.encode(encoder),
            Message::MID0039rev1(payload) => payload.encode(encoder),
            Message::MID0039rev2(payload) => payload.encode(encoder),
            Message::MID0040rev6(payload) => payload.encode(encoder),
            Message::MID0041rev1(payload) => payload.encode(encoder),
            Message::MID0041rev2(payload) => payload.encode(encoder),
            Message::MID0042rev2(payload) => payload.encode(encoder),
            Message::MID0043rev2(payload) => payload.encode(encoder),
            Message::MID0044rev1(payload) => payload.encode(encoder),
            Message::MID0045rev1(payload) => payload.encode(encoder),
            Message::MID0045rev2(payload) => payload.encode(encoder),
            Message::MID0046rev1(payload) => payload.encode(encoder),
            Message::MID0047rev1(payload) => payload.encode(encoder),
            Message::MID0048rev1(payload) => payload.encode(encoder),
            Message::MID0050rev1(payload) => payload.encode(encoder),
            Message::MID0051rev1(payload) => payload.encode(encoder),
            Message::MID0052rev1(payload) => payload.encode(encoder),
            Message::MID0052rev2(payload) => payload.encode(encoder),
            Message::MID0053rev1(payload) => payload.encode(encoder),
            Message::MID0054rev1(payload) => payload.encode(encoder),
            Message::MID0054rev2(payload) => payload.encode(encoder),
            Message::MID0060rev1(payload) => payload.encode(encoder),
            Message::MID0061rev1(payload) => payload.encode(encoder),
            Message::MID0061rev2(payload) => payload.encode(encoder),
            Message::MID0061rev3(payload) => payload.encode(encoder),
            Message::MID0062rev1(payload) => payload.encode(encoder),
            Message::MID0063rev1(payload) => payload.encode(encoder),
            Message::MID0064rev1(payload) => payload.encode(encoder),
            Message::MID0065rev1(payload) => payload.encode(encoder),
            Message::MID0066rev1(payload) => payload.encode(encoder),
            Message::MID0066rev2(payload) => payload.encode(encoder),
            Message::MID0067rev1(payload) => payload.encode(encoder),
            Message::MID0900rev1(payload) => payload.encode(encoder),
            Message::MID0900rev2(payload) => payload.encode(encoder),
            Message::MID0900rev3(payload) => payload.encode(encoder),
            Message::MID0901rev1(payload) => payload.encode(encoder),
            Message::MID0901rev2(payload) => payload.encode(encoder),
            Message::MID0901rev3(payload) => payload.encode(encoder),
            Message::MID0902rev1(payload) => payload.encode(encoder),
            Message::MID1201rev1(payload) => payload.encode(encoder),
            Message::MID1201rev2(payload) => payload.encode(encoder),
            Message::MID1201rev3(payload) => payload.encode(encoder),
            Message::MID1202rev1(payload) => payload.encode(encoder),
            Message::MID1202rev2(payload) => payload.encode(encoder),
            Message::MID1203rev1(payload) => payload.encode(encoder),
            Message::MID0070rev1(payload) => payload.encode(encoder),
            Message::MID0071rev1(payload) => payload.encode(encoder),
            Message::MID0072rev1(payload) => payload.encode(encoder),
            Message::MID0073rev1(payload) => payload.encode(encoder),
            Message::MID0074rev1(payload) => payload.encode(encoder),
            Message::MID0075rev1(payload) => payload.encode(encoder),
            Message::MID0076rev1(payload) => payload.encode(encoder),
            Message::MID0077rev1(payload) => payload.encode(encoder),
            Message::MID0078rev1(payload) => payload.encode(encoder),
            Message::MID1000rev1(payload) => payload.encode(encoder),
            Message::MID1001rev1(payload) => payload.encode(encoder),
            Message::MID0080rev1(payload) => payload.encode(encoder),
            Message::MID0081rev1(payload) => payload.encode(encoder),
            Message::MID0082rev1(payload) => payload.encode(encoder),
            Message::MID0090rev1(payload) => payload.encode(encoder),
            Message::MID0091rev1(payload) => payload.encode(encoder),
            Message::MID0092rev1(payload) => payload.encode(encoder),
            Message::MID0093rev1(payload) => payload.encode(encoder),
            Message::MID0100rev1(payload) => payload.encode(encoder),
            Message::MID0101rev1(payload) => payload.encode(encoder),
            Message::MID0102rev1(payload) => payload.encode(encoder),
            Message::MID0103rev1(payload) => payload.encode(encoder),
            Message::MID0104rev1(payload) => payload.encode(encoder),
            Message::MID0105rev1(payload) => payload.encode(encoder),
            Message::MID0106rev1(payload) => payload.encode(encoder),
            Message::MID0107rev1(payload) => payload.encode(encoder),
            Message::MID0108rev1(payload) => payload.encode(encoder),
            Message::MID0109rev1(payload) => payload.encode(encoder),
            Message::MID0110rev1(payload) => payload.encode(encoder),
            Message::MID0111rev1(payload) => payload.encode(encoder),
            Message::MID0113rev1(payload) => payload.encode(encoder),
            Message::MID9999rev1(payload) => payload.encode(encoder),
        }
    }

    /// Reading the payload that is registered under the message id and
    /// revision. An id or revision that the registry does not know fails as
    /// not implemented, with the cursor where it was.
    pub open spec fn parse_payload(mid: u16, revision: u16, bytes: Seq<u8>, pos: int) -> Parsed<
        MessageView,
    > {
        match group_of(mid) {
            Some(Group::LinkCommunication) => Self::parse_link_communication(mid, revision, bytes, pos),
            Some(Group::Communication) => Self::parse_communication(mid, revision, bytes, pos),
            Some(Group::ParameterSet) => Self::parse_parameter_set(mid, revision, bytes, pos),
            Some(Group::Mode) => Self::parse_mode(mid, revision, bytes, pos),
            Some(Group::Job) => Self::parse_job(mid, revision, bytes, pos),
            Some(Group::Tool) => Self::parse_tool(mid, revision, bytes, pos),
            Some(Group::Vin) => Self::parse_vin(mid, revision, bytes, pos),
            Some(Group::TighteningResult) => Self::parse_tightening_result(mid, revision, bytes, pos),
            Some(Group::Result) => Self::parse_result(mid, revision, bytes, pos),
            Some(Group::Alarm) => Self::parse_alarm(mid, revision, bytes, pos),
            Some(Group::Time) => Self::parse_time(mid, revision, bytes, pos),
            Some(Group::MultiSpindleStatus) => Self::parse_multi_spindle_status(mid, revision, bytes, pos),
            Some(Group::MultiSpindleResult) => Self::parse_multi_spindle_result(mid, revision, bytes, pos),
            Some(Group::PowermacsResult) => Self::parse_powermacs_result(mid, revision, bytes, pos),
            Some(Group::UserInterface) => Self::parse_user_interface(mid, revision, bytes, pos),
            Some(Group::KeepAlive) => Self::parse_keep_alive(mid, revision, bytes, pos),
            None => Err((ErrorView::NotImplemented, pos)),
        }
    }

    /// Reads the payload that is registered under the message id and
    /// revision.
    pub fn decode_payload(mid: u16, revision: u16, decoder: &mut Decoder) -> (r: decode::Result<
        Self,
    >)
        ensures
            decodes(
                old(decoder)@,
                final(decoder)@,
                r,
                Self::parse_payload(mid, revision, old(decoder)@.bytes, old(decoder)@.cursor),
                Self::zoned(mid, revision) && Self::stops_payload(
                    mid,
                    revision,
                    old(decoder)@.bytes,
                    old(decoder)@.cursor,
                    final(decoder)@.cursor,
                ),
            ),
    {
        match group(mid) {
            Some(Group::LinkCommunication) => Self::decode_link_communication(mid, revision, decoder),
            Some(Group::Communication) => Self::decode_communication(mid, revision, decoder),
            Some(Group::ParameterSet) => Self::decode_parameter_set(mid, revision, decoder),
            Some(Group::Mode) => Self::decode_mode(mid, revision, decoder),
            Some(Group::Job) => Self::decode_job(mid, revision, decoder),
            Some(Group::Tool) => Self::decode_tool(mid, revision, decoder),
            Some(Group::Vin) => Self::decode_vin(mid, revision, decoder),
            Some(Group::TighteningResult) => Self::decode_tightening_result(mid, revision, decoder),
            Some(Group::Result) => Self::decode_result(mid, revision, decoder),
            Some(Group::Alarm) => Self::decode_alarm(mid, revision, decoder),
            Some(Group::Time) => Self::decode_time(mid, revision, decoder),
            Some(Group::MultiSpindleStatus) => Self::decode_multi_spindle_status(mid, revision, decoder),
            Some(Group::MultiSpindleResult) => Self::decode_multi_spindle_result(mid, revision, decoder),
            Some(Group::PowermacsResult) => Self::decode_powermacs_result(mid, revision, decoder),
            Some(Group::UserInterface) => Self::decode_user_interface(mid, revision, decoder),
            Some(Group::KeepAlive) => Self::decode_keep_alive(mid, revision, decoder),
            None => Err(decode::Error::NotImplemented),
        }
    }

    /// Reading a payload of the group `link_communication`.
    pub open spec fn parse_link_communication(mid: u16, revision: u16, bytes: Seq<u8>, pos: int) -> Parsed<
        MessageView,
    > {
        if mid == 9998 {
            if revision == 1 {
                match link_communication::MID9998rev1::parse(bytes, pos) {
                    Ok((payload, end)) => Ok((MessageView::MID9998rev1(payload), end)),
                    Err(e) => Err(e),
                }
            } else {
                Err((ErrorView::NotImplemented, pos))
            }
        } else if mid == 9997 {
            if revision == 1 {
                match link_communication::MID9997rev1::parse(bytes, pos) {
                    Ok((payload, end)) => Ok((MessageView::MID9997rev1(payload), end)),
                    Err(e) => Err(e),
                }
            } else {
                Err((ErrorView::NotImplemented, pos))
            }
        } else {
            Err((ErrorView::NotImplemented, pos))
        }
    }

    /// Reads a payload of the group `link_communication`.
    fn decode_link_communication(mid: u16, revision: u16, decoder: &mut Decoder) -> (r: decode::Result<Self>)
        ensures
            decodes(
                old(decoder)@,
                final(decoder)@,
                r,
                Self::parse_link_communication(mid, revision, old(decoder)@.bytes, old(decoder)@.cursor),
                Self::zoned(mid, revision) && Self::stops_payload(
                    mid,
                    revision,
                    old(decoder)@.bytes,
                    old(decoder)@.cursor,
                    final(decoder)@.cursor,
                ),
            ),
    {
        if mid == 9998 {
            if revision == 1 {
                match link_communication::MID9998rev1::decode(decoder) {
                    Ok(payload) => Ok(Message::MID9998rev1(payload)),
                    Err(e) => Err(e),
                }
            } else {
                Err(decode::Error::NotImplemented)
            }
        } else if mid == 9997 {
            if revision == 1 {
                match link_communication::MID9997rev1::decode(decoder) {
                    Ok(payload) => Ok(Message::MID9997rev1(payload)),
                    Err(e) => Err(e),
                }
            } else {
                Err(decode::Error::NotImplemented)
            }
        } else {
            Err(decode::Error::NotImplemented)
        }
    }

    /// Reading a payload of the group `communication`.
    pub open spec fn parse_communication(mid: u16, revision: u16, bytes: Seq<u8>, pos: int) -> Parsed<
        MessageView,
    > {
        if mid == 1 {
            if revision == 1 {
                match communication::MID0001rev7::parse(bytes, pos) {
                    Ok((payload, end)) => Ok((MessageView::MID0001rev1(payload), end)),
                    Err(e) => Err(e),
                }
            } else if revision == 7 {
                match communication::MID0001rev7::parse(bytes, pos) {
                    Ok((payload, end)) => Ok((MessageView::MID0001rev7(payload), end)),
                    Err(e) => Err(e),
                }
            } else {
                Err((ErrorView::NotImplemented, pos))
            }
        } else if mid == 2 {
            if revision == 1 {
                match communication::MID0002rev1::parse(bytes, pos) {
                    Ok((payload, end)) => Ok((MessageView::MID0002rev1(payload), end)),
                    Err(e) => Err(e),
                }
            } else if revision == 2 {
                match communication::MID0002rev2::parse(bytes, pos) {
                    Ok((payload, end)) => Ok((MessageView::MID0002rev2(payload), end)),
                    Err(e) => Err(e),
                }
            } else if revision == 3 {
                match communication::MID0002rev3::parse(bytes, pos) {
                    Ok((payload, end)) => Ok((MessageView::MID0002rev3(payload), end)),
                    Err(e) => Err(e),
                }
            } else if revision == 4 {
                match communication::MID0002rev4::parse(bytes, pos) {
                    Ok((payload, end)) => Ok((MessageView::MID0002rev4(payload), end)),
                    Err(e) => Err(e),
                }
            } else if revision == 5 {
                match communication::MID0002rev5::parse(bytes, pos) {
                    Ok((payload, end)) => Ok((MessageView::MID0002rev5(payload), end)),
                    Err(e) => Err(e),
                }
            } else if revision == 6 {
                match communication::MID0002rev6::parse(bytes, pos) {
                    Ok((payload, end)) => Ok((MessageView::MID0002rev6(payload), end)),
                    Err(e) => Err(e),
                }
            } else if revision == 7 {
                match communication::MID0002rev7::parse(bytes, pos) {
                    Ok((payload, end)) => Ok((MessageView::MID0002rev7(payload), end)),
                    Err(e) => Err(e),
                }
            } else {
                Err((ErrorView::NotImplemented, pos))
            }
        } else if mid == 3 {
            if revision == 1 {
                match communication::MID0003rev1::parse(bytes, pos) {
                    Ok((payload, end)) => Ok((MessageView::MID0003rev1(payload), end)),
                    Err(e) => Err(e),
                }
            } else {
                Err((ErrorView::NotImplemented, pos))
            }
        } else if mid == 4 {
            if revision == 1 {
                match communication::MID0004rev1::parse(bytes, pos) {
                    Ok((payload, end)) => Ok((MessageView::MID0004rev1(payload), end)),
                    Err(e) => Err(e),
                }
            } else if revision == 2 {
                match communication::MID0004rev2::parse(bytes, pos) {
                    Ok((payload, end)) => Ok((MessageView::MID0004rev2(payload), end)),
                    Err(e) => Err(e),
                }
            } else {
                Err((ErrorView::NotImplemented, pos))
            }
        } else if mid == 5 {
            if revision == 1 {
                match communication::MID0005rev1::parse(bytes, pos) {
                    Ok((payload, end)) => Ok((MessageView::MID0005rev1(payload), end)),
                    Err(e) => Err(e),
                }
            } else {
                Err((ErrorView::NotImplemented, pos))
            }
        } else if mid == 6 {
            if revision == 1 {
                match communication::MID0006rev1::parse(bytes, pos) {
                    Ok((payload, end)) => Ok((MessageView::MID0006rev1(payload), end)),
                    Err(e) => Err(e),
                }
            } else {
                Err((ErrorView::NotImplemented, pos))
            }
        } else if mid == 8 {
            if revision == 1 {
                match communication::MID0008rev1::parse(bytes, pos) {
                    Ok((payload, end)) => Ok((MessageView::MID0008rev1(payload), end)),
                    Err(e) => Err(e),
                }
            } else {
                Err((ErrorView::NotImplemented, pos))
            }
        } else if mid == 9 {
            if revision == 1 {
                match communication::MID0009rev1::parse(bytes, pos) {
                    Ok((payload, end)) => Ok((MessageView::MID0009rev1(payload), end)),
                    Err(e) => Err(e),
                }
            } else {
                Err((ErrorView::NotImplemented, pos))
            }
        } else {
            Err((ErrorView::NotImplemented, pos))
        }
    }

    /// Reads a payload of the group `communication`.
    fn decode_communication(mid: u16, revision: u16, decoder: &mut Decoder) -> (r: decode::Result<Self>)
        ensures
            decodes(
                old(decoder)@,
                final(decoder)@,
                r,
                Self::parse_communication(mid, revision, old(decoder)@.bytes, old(decoder)@.cursor),
                Self::zoned(mid, revision) && Self::stops_payload(
                    mid,
                    revision,
                    old(decoder)@.bytes,
                    old(decoder)@.cursor,
                    final(decoder)@.cursor,
                ),
            ),
    {
        if mid == 1 {
            if revision == 1 {
                match communication::MID0001rev7::decode(decoder) {
                    Ok(payload) => Ok(Message::MID0001rev1(payload)),
                    Err(e) => Err(e),
                }
            } else if revision == 7 {
                match communication::MID0001rev7::decode(decoder) {
                    Ok(payload) => Ok(Message::MID0001rev7(payload)),
                    Err(e) => Err(e),
                }
            } else {
                Err(decode::Error::NotImplemented)
            }
        } else if mid == 2 {
            if revision == 1 {
                match communication::MID0002rev1::decode(decoder) {
                    Ok(payload) => Ok(Message::MID0002rev1(payload)),
                    Err(e) => Err(e),
                }
            } else if revision == 2 {
                match communication::MID0002rev2::decode(decoder) {
                    Ok(payload) => Ok(Message::MID0002rev2(payload)),
                    Err(e) => Err(e),
                }
            } else if revision == 3 {
                match communication::MID0002rev3::decode(decoder) {
                    Ok(payload) => Ok(Message::MID0002rev3(payload)),
                    Err(e) => Err(e),
                }
            } else if revision == 4 {
                match communication::MID0002rev4::decode(decoder) {
                    Ok(payload) => Ok(Message::MID0002rev4(payload)),
                    Err(e) => Err(e),
                }
            } else if revision == 5 {
                match communication::MID0002rev5::decode(decoder) {
                    Ok(payload) => Ok(Message::MID0002rev5(payload)),
                    Err(e) => Err(e),
                }
            } else if revision == 6 {
                match communication::MID0002rev6::decode(decoder) {
                    Ok(payload) => Ok(Message::MID0002rev6(payload)),
                    Err(e) => Err(e),
                }
            } else if revision == 7 {
                match communication::MID0002rev7::decode(decoder) {
                    Ok(payload) => Ok(Message::MID0002rev7(payload)),
                    Err(e) => Err(e),
                }
            } else {
                Err(decode::Error::NotImplemented)
            }
        } else if mid == 3 {
            if revision == 1 {
                match communication::MID0003rev1::decode(decoder) {
                    Ok(payload) => Ok(Message::MID0003rev1(payload)),
                    Err(e) => Err(e),
                }
            } else {
                Err(decode::Error::NotImplemented)
            }
        } else if mid == 4 {
            if revision == 1 {
                match communication::MID0004rev1::decode(decoder) {
                    Ok(payload) => Ok(Message::MID0004rev1(payload)),
                    Err(e) => Err(e),
                }
            } else if revision == 2 {
                match communication::MID0004rev2::decode(decoder) {
                    Ok(payload) => Ok(Message::MID0004rev2(payload)),
                    Err(e) => Err(e),
                }
            } else {
                Err(decode::Error::NotImplemented)
            }
        } else if mid == 5 {
            if revision == 1 {
                match communication::MID0005rev1::decode(decoder) {
                    Ok(payload) => Ok(Message::MID0005rev1(payload)),
                    Err(e) => Err(e),
                }
            } else {
                Err(decode::Error::NotImplemented)
            }
        } else if mid == 6 {
            if revision == 1 {
                match communication::MID0006rev1::decode(decoder) {
                    Ok(payload) => Ok(Message::MID0006rev1(payload)),
                    Err(e) => Err(e),
                }
            } else {
                Err(decode::Error::NotImplemented)
            }
        } else if mid == 8 {
            if revision == 1 {
                match communication::MID0008rev1::decode(decoder) {
                    Ok(payload) => Ok(Message::MID0008rev1(payload)),
                    Err(e) => Err(e),
                }
            } else {
                Err(decode::Error::NotImplemented)
            }
        } else if mid == 9 {
            if revision == 1 {
                match communication::MID0009rev1::decode(decoder) {
                    Ok(payload) => Ok(Message::MID0009rev1(payload)),
                    Err(e) => Err(e),
                }
            } else {
                Err(decode::Error::NotImplemented)
            }
        } else {
            Err(decode::Error::NotImplemented)
        }
    }

    /// Reading a payload of the group `parameter_set`.
    pub open spec fn parse_parameter_set(mid: u16, revision: u16, bytes: Seq<u8>, pos: int) -> Parsed<
        MessageView,
    > {
        if mid == 10 {
            if revision == 1 {
                match parameter_set::MID0010rev1::parse(bytes, pos) {
                    Ok((payload, end)) => Ok((MessageView::MID0010rev1(payload), end)),
                    Err(e) => Err(e),
                }
            } else {
                Err((ErrorView::NotImplemented, pos))
            }
        } else if mid == 11 {
            if revision == 1 {
                match parameter_set::MID0011rev1::parse(bytes, pos) {
                    Ok((payload, end)) => Ok((MessageView::MID0011rev1(payload), end)),
                    Err(e) => Err(e),
                }
            } else if revision == 2 {
                match parameter_set::MID0011rev2::parse(bytes, pos) {
                    Ok((payload, end)) => Ok((MessageView::MID0011rev2(payload), end)),
                    Err(e) => Err(e),
                }
            } else if revision == 3 {
                match parameter_set::MID0011rev3::parse(bytes, pos) {
                    Ok((payload, end)) => Ok((MessageView::MID0011rev3(payload), end)),
                    Err(e) => Err(e),
                }
            } else if revision == 4 {
                match parameter_set::MID0011rev4::parse(bytes, pos) {
                    Ok((payload, end)) => Ok((MessageView::MID0011rev4(payload), end)),
                    Err(e) => Err(e),
                }
            } else {
                Err((ErrorView::NotImplemented, pos))
            }
        } else if mid == 12 {
            if revision == 1 {
                match parameter_set::MID0012rev1::parse(bytes, pos) {
                    Ok((payload, end)) => Ok((MessageView::MID0012rev1(payload), end)),
                    Err(e) => Err(e),
                }
            } else {
                Err((ErrorView::NotImplemented, pos))
            }
        } else if mid == 13 {
            if revision == 1 {
                match parameter_set::MID0013rev1::parse(bytes, pos) {
                    Ok((payload, end)) => Ok((MessageView::MID0013rev1(payload), end)),
                    Err(e) => Err(e),
                }
            } else if revision == 2 {
                match parameter_set::MID0013rev2::parse(bytes, pos) {
                    Ok((payload, end)) => Ok((MessageView::MID0013rev2(payload), end)),
                    Err(e) => Err(e),
                }
            } else {
                Err((ErrorView::NotImplemented, pos))
            }
        } else if mid == 14 {
            if revision == 1 {
                match parameter_set::MID0014rev1::parse(bytes, pos) {
                    Ok((payload, end)) => Ok((MessageView::MID0014rev1(payload), end)),
                    Err(e) => Err(e),
                }
            } else {
                Err((ErrorView::NotImplemented, pos))
            }
        } else if mid == 15 {
            if revision == 1 {
                match parameter_set::MID0015rev1::parse(bytes, pos) {
                    Ok((payload, end)) => Ok((MessageView::MID0015rev1(payload), end)),
                    Err(e) => Err(e),
                }
            } else if revision == 2 {
                match parameter_set::MID0015rev2::parse(bytes, pos) {
                    Ok((payload, end)) => Ok((MessageView::MID0015rev2(payload), end)),
                    Err(e) => Err(e),
                }
            } else {
                Err((ErrorView::NotImplemented, pos))
            }
        } else if mid == 16 {
            if revision == 1 {
                match parameter_set::MID0016rev1::parse(bytes, pos) {
                    Ok((payload, end)) => Ok((MessageView::MID0016rev1(payload), end)),
                    Err(e) => Err(e),
                }
            } else {
                Err((ErrorView::NotImplemented, pos))
            }
        } else if mid == 17 {
            if revision == 1 {
                match parameter_set::MID0017rev1::parse(bytes, pos) {
                    Ok((payload, end)) => Ok((MessageView::MID0017rev1(payload), end)),
                    Err(e) => Err(e),
                }
            } else {
                Err((ErrorView::NotImplemented, pos))
            }
        } else if mid == 18 {
            if revision == 1 {
                match parameter_set::MID0018rev1::parse(bytes, pos) {
                    Ok((payload, end)) => Ok((MessageView::MID0018rev1(payload), end)),
                    Err(e) => Err(e),
                }
            } else {
                Err((ErrorView::NotImplemented, pos))
            }
        } else if mid == 19 {
            if revision == 1 {
                match parameter_set::MID0019rev1::parse(bytes, pos) {
                    Ok((payload, end)) => Ok((MessageView::MID0019rev1(payload), end)),
                    Err(e) => Err(e),
                }
            } else if revision == 2 {
                match parameter_set::MID0019rev2::parse(bytes, pos) {
                    Ok((payload, end)) => Ok((MessageView::MID0019rev2(payload), end)),
                    Err(e) => Err(e),
                }
            } else {
                Err((ErrorView::NotImplemented, pos))
            }
        } else if mid == 20 {
            if revision == 1 {
                match parameter_set::MID0020rev1::parse(bytes, pos) {
                    Ok((payload, end)) => Ok((MessageView::MID0020rev1(payload), end)),
                    Err(e) => Err(e),
                }
            } else {
                Err((ErrorView::NotImplemented, pos))
            }
        } else if mid == 21 {
            if revision == 1 {
                match parameter_set::MID0021rev1::parse(bytes, pos) {
                    Ok((payload, end)) => Ok((MessageView::MID0021rev1(payload), end)),
                    Err(e) => Err(e),
                }
            } else {
                Err((ErrorView::NotImplemented, pos))
            }
        } else if mid == 22 {
            if revision == 1 {
                match parameter_set::MID0022rev1::parse(bytes, pos) {
                    Ok((payload, end)) => Ok((MessageView::MID0022rev1(payload), end)),
                    Err(e) => Err(e),
                }
            } else {
                Err((ErrorView::NotImplemented, pos))
            }
        } else {
            Err((ErrorView::NotImplemented, pos))
        }
    }

    /// Reads a payload of the group `parameter_set`.
    fn decode_parameter_set(mid: u16, revision: u16, decoder: &mut Decoder) -> (r: decode::Result<Self>)
        ensures
            decodes(
                old(decoder)@,
                final(decoder)@,
                r,
                Self::parse_parameter_set(mid, revision, old(decoder)@.bytes, old(decoder)@.cursor),
                Self::zoned(mid, revision) && Self::stops_payload(
                    mid,
                    revision,
                    old(decoder)@.bytes,
                    old(decoder)@.cursor,
                    final(decoder)@.cursor,
                ),
            ),
    {
        if mid == 10 {
            if revision == 1 {
                match parameter_set::MID0010rev1::decode(decoder) {
                    Ok(payload) => Ok(Message::MID0010rev1(payload)),
                    Err(e) => Err(e),
                }
            } else {
                Err(decode::Error::NotImplemented)
            }
        } else if mid == 11 {
            if revision == 1 {
                match parameter_set::MID0011rev1::decode(decoder) {
                    Ok(payload) => Ok(Message::MID0011rev1(payload)),
                    Err(e) => Err(e),
                }
            } else if revision == 2 {
                match parameter_set::MID0011rev2::decode(decoder) {
                    Ok(payload) => Ok(Message::MID0011rev2(payload)),
                    Err(e) => Err(e),
                }
            } else if revision == 3 {
                match parameter_set::MID0011rev3::decode(decoder) {
                    Ok(payload) => Ok(Message::MID0011rev3(payload)),
                    Err(e) => Err(e),
                }
            } else if revision == 4 {
                match parameter_set::MID0011rev4::decode(decoder) {
                    Ok(payload) => Ok(Message::MID0011rev4(payload)),
                    Err(e) => Err(e),
                }
            } else {
                Err(decode::Error::NotImplemented)
            }
        } else if mid == 12 {
            if revision == 1 {
                match parameter_set::MID0012rev1::decode(decoder) {
                    Ok(payload) => Ok(Message::MID0012rev1(payload)),
                    Err(e) => Err(e),
                }
            } else {
                Err(decode::Error::NotImplemented)
            }
        } else if mid == 13 {
            if revision == 1 {
                match parameter_set::MID0013rev1::decode(decoder) {
                    Ok(payload) => Ok(Message::MID0013rev1(payload)),
                    Err(e) => Err(e),
                }
            } else if revision == 2 {
                match parameter_set::MID0013rev2::decode(decoder) {
                    Ok(payload) => Ok(Message::MID0013rev2(payload)),
                    Err(e) => Err(e),
                }
            } else {
                Err(decode::Error::NotImplemented)
            }
        } else if mid == 14 {
            if revision == 1 {
                match parameter_set::MID0014rev1::decode(decoder) {
                    Ok(payload) => Ok(Message::MID0014rev1(payload)),
                    Err(e) => Err(e),
                }
            } else {
                Err(decode::Error::NotImplemented)
            }
        } else if mid == 15 {
            if revision == 1 {
                match parameter_set::MID0015rev1::decode(decoder) {
                    Ok(payload) => Ok(Message::MID0015rev1(payload)),
                    Err(e) => Err(e),
                }
            } else if revision == 2 {
                match parameter_set::MID0015rev2::decode(decoder) {
                    Ok(payload) => Ok(Message::MID0015rev2(payload)),
                    Err(e) => Err(e),
                }
            } else {
                Err(decode::Error::NotImplemented)
            }
        } else if mid == 16 {
            if revision == 1 {
                match parameter_set::MID0016rev1::decode(decoder) {
                    Ok(payload) => Ok(Message::MID0016rev1(payload)),
                    Err(e) => Err(e),
                }
            } else {
                Err(decode::Error::NotImplemented)
            }
        } else if mid == 17 {
            if revision == 1 {
                match parameter_set::MID0017rev1::decode(decoder) {
                    Ok(payload) => Ok(Message::MID0017rev1(payload)),
                    Err(e) => Err(e),
                }
            } else {
                Err(decode::Error::NotImplemented)
            }
        } else if mid == 18 {
            if revision == 1 {
                match parameter_set::MID0018rev1::decode(decoder) {
                    Ok(payload) => Ok(Message::MID0018rev1(payload)),
                    Err(e) => Err(e),
                }
            } else {
                Err(decode::Error::NotImplemented)
            }
        } else if mid == 19 {
            if revision == 1 {
                match parameter_set::MID0019rev1::decode(decoder) {
                    Ok(payload) => Ok(Message::MID0019rev1(payload)),
                    Err(e) => Err(e),
                }
            } else if revision == 2 {
                match parameter_set::MID0019rev2::decode(decoder) {
                    Ok(payload) => Ok(Message::MID0019rev2(payload)),
                    Err(e) => Err(e),
                }
            } else {
                Err(decode::Error::NotImplemented)
            }
        } else if mid == 20 {
            if revision == 1 {
                match parameter_set::MID0020rev1::decode(decoder) {
                    Ok(payload) => Ok(Message::MID0020rev1(payload)),
                    Err(e) => Err(e),
                }
            } else {
                Err(decode::Error::NotImplemented)
            }
        } else if mid == 21 {
            if revision == 1 {
                match parameter_set::MID0021rev1::decode(decoder) {
                    Ok(payload) => Ok(Message::MID0021rev1(payload)),
                    Err(e) => Err(e),
                }
            } else {
                Err(decode::Error::NotImplemented)
            }
        } else if mid == 22 {
            if revision == 1 {
                match parameter_set::MID0022rev1::decode(decoder) {
                    Ok(payload) => Ok(Message::MID0022rev1(payload)),
                    Err(e) => Err(e),
                }
            } else {
                Err(decode::Error::NotImplemented)
            }
        } else {
            Err(decode::Error::NotImplemented)
        }
    }

    /// Reading a payload of the group `mode`.
    pub open spec fn parse_mode(mid: u16, revision: u16, bytes: Seq<u8>, pos: int) -> Parsed<
        MessageView,
    > {
        if mid == 2600 {
            if revision == 1 {
                match mode::MID2600rev1::parse(bytes, pos) {
                    Ok((payload, end)) => Ok((MessageView::MID2600rev1(payload), end)),
                    Err(e) => Err(e),
                }
            } else {
                Err((ErrorView::NotImplemented, pos))
            }
        } else if mid == 2601 {
            if revision == 1 {
                match mode::MID2601rev1::parse(bytes, pos) {
                    Ok((payload, end)) => Ok((MessageView::MID2601rev1(payload), end)),
                    Err(e) => Err(e),
                }
            } else {
                Err((ErrorView::NotImplemented, pos))
            }
        } else if mid == 2602 {
            if revision == 1 {
                match mode::MID2602rev1::parse(bytes, pos) {
                    Ok((payload, end)) => Ok((MessageView::MID2602rev1(payload), end)),
                    Err(e) => Err(e),
                }
            } else {
                Err((ErrorView::NotImplemented, pos))
            }
        } else if mid == 2603 {
            if revision == 1 {
                match mode::MID2603rev1::parse(bytes, pos) {
                    Ok((payload, end)) => Ok((MessageView::MID2603rev1(payload), end)),
                    Err(e) => Err(e),
                }
            } else {
                Err((ErrorView::NotImplemented, pos))
            }
        } else if mid == 2604 {
            if revision == 1 {
                match mode::MID2604rev1::parse(bytes, pos) {
                    Ok((payload, end)) => Ok((MessageView::MID2604rev1(payload), end)),
                    Err(e) => Err(e),
                }
            } else {
                Err((ErrorView::NotImplemented, pos))
            }
        } else if mid == 2605 {
            if revision == 1 {
                match mode::MID2605rev1::parse(bytes, pos) {
                    Ok((payload, end)) => Ok((MessageView::MID2605rev1(payload), end)),
                    Err(e) => Err(e),
                }
            } else {
                Err((ErrorView::NotImplemented, pos))
            }
        } else if mid == 2606 {
            if revision == 1 {
                match mode::MID2606rev1::parse(bytes, pos) {
                    Ok((payload, end)) => Ok((MessageView::MID2606rev1(payload), end)),
                    Err(e) => Err(e),
                }
            } else {
                Err((ErrorView::NotImplemented, pos))
            }
        } else {
            Err((ErrorView::NotImplemented, pos))
        }
    }

    /// Reads a payload of the group `mode`.
    fn decode_mode(mid: u16, revision: u16, decoder: &mut Decoder) -> (r: decode::Result<Self>)
        ensures
            decodes(
                old(decoder)@,
                final(decoder)@,
                r,
                Self::parse_mode(mid, revision, old(decoder)@.bytes, old(decoder)@.cursor),
                Self::zoned(mid, revision) && Self::stops_payload(
                    mid,
                    revision,
                    old(decoder)@.bytes,
                    old(decoder)@.cursor,
                    final(decoder)@.cursor,
                ),
            ),
    {
        if mid == 2600 {
            if revision == 1 {
                match mode::MID2600rev1::decode(decoder) {
                    Ok(payload) => Ok(Message::MID2600rev1(payload)),
                    Err(e) => Err(e),
                }
            } else {
                Err(decode::Error::NotImplemented)
            }
        } else if mid == 2601 {
            if revision == 1 {
                match mode::MID2601rev1::decode(decoder) {
                    Ok(payload) => Ok(Message::MID2601rev1(payload)),
                    Err(e) => Err(e),
                }
            } else {
                Err(decode::Error::NotImplemented)
            }
        } else if mid == 2602 {
            if revision == 1 {
                match mode::MID2602rev1::decode(decoder) {
                    Ok(payload) => Ok(Message::MID2602rev1(payload)),
                    Err(e) => Err(e),
                }
            } else {
                Err(decode::Error::NotImplemented)
            }
        } else if mid == 2603 {
            if revision == 1 {
                match mode::MID2603rev1::decode(decoder) {
                    Ok(payload) => Ok(Message::MID2603rev1(payload)),
                    Err(e) => Err(e),
                }
            } else {
                Err(decode::Error::NotImplemented)
            }
        } else if mid == 2604 {
            if revision == 1 {
                match mode::MID2604rev1::decode(decoder) {
                    Ok(payload) => Ok(Message::MID2604rev1(payload)),
                    Err(e) => Err(e),
                }
            } else {
                Err(decode::Error::NotImplemented)
            }
        } else if mid == 2605 {
            if revision == 1 {
                match mode::MID2605rev1::decode(decoder) {
                    Ok(payload) => Ok(Message::MID2605rev1(payload)),
                    Err(e) => Err(e),
                }
            } else {
                Err(decode::Error::NotImplemented)
            }
        } else if mid == 2606 {
            if revision == 1 {
                match mode::MID2606rev1::decode(decoder) {
                    Ok(payload) => Ok(Message::MID2606rev1(payload)),
                    Err(e) => Err(e),
                }
            } else {
                Err(decode::Error::NotImplemented)
            }
        } else {
            Err(decode::Error::NotImplemented)
        }
    }

    /// Reading a payload of the group `job`.
    pub open spec fn parse_job(mid: u16, revision: u16, bytes: Seq<u8>, pos: int) -> Parsed<
        MessageView,
    > {
        if mid == 30 {
            if revision == 1 {
                match job::MID0030rev1::parse(bytes, pos) {
                    Ok((payload, end)) => Ok((MessageView::MID0030rev1(payload), end)),
                    Err(e) => Err(e),
                }
            } else {
                Err((ErrorView::NotImplemented, pos))
            }
        } else if mid == 31 {
            if revision == 1 {
                match job::MID0031rev1::parse(bytes, pos) {
                    Ok((payload, end)) => Ok((MessageView::MID0031rev1(payload), end)),
                    Err(e) => Err(e),
                }
            } else if revision == 2 {
                match job::MID0031rev2::parse(bytes, pos) {
                    Ok((payload, end)) => Ok((MessageView::MID0031rev2(payload), end)),
                    Err(e) => Err(e),
                }
            } else {
                Err((ErrorView::NotImplemented, pos))
            }
        } else if mid == 32 {
            if revision == 1 {
                match job::MID0032rev1::parse(bytes, pos) {
                    Ok((payload, end)) => Ok((MessageView::MID0032rev1(payload), end)),
                    Err(e) => Err(e),
                }
            } else if revision == 2 {
                match job::MID0032rev2::parse(bytes, pos) {
                    Ok((payload, end)) => Ok((MessageView::MID0032rev2(payload), end)),
                    Err(e) => Err(e),
                }
            } else {
                Err((ErrorView::NotImplemented, pos))
            }
        } else if mid == 33 {
            if revision == 1 {
                match job::MID0033rev1::parse(bytes, pos) {
                    Ok((payload, end)) => Ok((MessageView::MID0033rev1(payload), end)),
                    Err(e) => Err(e),
                }
            } else {
                Err((ErrorView::NotImplemented, pos))
            }
        } else if mid == 34 {
            if revision == 1 {
                match job::MID0034rev1::parse(bytes, pos) {
                    Ok((payload, end)) => Ok((MessageView::MID0034rev1(payload), end)),
                    Err(e) => Err(e),
                }
            } else {
                Err((ErrorView::NotImplemented, pos))
            }
        } else if mid == 35 {
            if revision == 1 {
                match job::MID0035rev1::parse(bytes, pos) {
                    Ok((payload, end)) => Ok((MessageView::MID0035rev1(payload), end)),
                    Err(e) => Err(e),
                }
            } else {
                Err((ErrorView::NotImplemented, pos))
            }
        } else if mid == 36 {
            if revision == 1 {
                match job::MID0036rev1::parse(bytes, pos) {
                    Ok((payload, end)) => Ok((MessageView::MID0036rev1(payload), end)),
                    Err(e) => Err(e),
                }
            } else {
                Err((ErrorView::NotImplemented, pos))
            }
        } else if mid == 37 {
            if revision == 1 {
                match job::MID0037rev1::parse(bytes, pos) {
                    Ok((payload, end)) => Ok((MessageView::MID0037rev1(payload), end)),
                    Err(e) => Err(e),
                }
            } else {
                Err((ErrorView::NotImplemented, pos))
            }
        } else if mid == 38 {
            if revision == 1 {
                match job::MID0038rev1::parse(bytes, pos) {
                    Ok((payload, end)) => Ok((MessageView::MID0038rev1(payload), end)),
                    Err(e) => Err(e),
                }
            } else if revision == 2 {
                match job::MID0038rev2::parse(bytes, pos) {
                    Ok((payload, end)) => Ok((MessageView::MID0038rev2(payload), end)),
                    Err(e) => Err(e),
                }
            } else {
                Err((ErrorView::NotImplemented, pos))
            }
        } else if mid == 39 {
            if revision == 1 {
                match job::MID0039rev1::parse(bytes, pos) {
                    Ok((payload, end)) => Ok((MessageView::MID0039rev1(payload), end)),
                    Err(e) => Err(e),
                }
            } else if revision == 2 {
                match job::MID0039rev2::parse(bytes, pos) {
                    Ok((payload, end)) => Ok((MessageView::MID0039rev2(payload), end)),
                    Err(e) => Err(e),
                }
            } else {
                Err((ErrorView::NotImplemented, pos))
            }
        } else {
            Err((ErrorView::NotImplemented, pos))
        }
    }

    /// Reads a payload of the group `job`.
    fn decode_job(mid: u16, revision: u16, decoder: &mut Decoder) -> (r: decode::Result<Self>)
        ensures
            decodes(
                old(decoder)@,
                final(decoder)@,
                r,
                Self::parse_job(mid, revision, old(decoder)@.bytes, old(decoder)@.cursor),
                Self::zoned(mid, revision) && Self::stops_payload(
                    mid,
                    revision,
                    old(decoder)@.bytes,
                    old(decoder)@.cursor,
                    final(decoder)@.cursor,
                ),
            ),
    {
        if mid == 30 {
            if revision == 1 {
                match job::MID0030rev1::decode(decoder) {
                    Ok(payload) => Ok(Message::MID0030rev1(payload)),
                    Err(e) => Err(e),
                }
            } else {
                Err(decode::Error::NotImplemented)
            }
        } else if mid == 31 {
            if revision == 1 {
                match job::MID0031rev1::decode(decoder) {
                    Ok(payload) => Ok(Message::MID0031rev1(payload)),
                    Err(e) => Err(e),
                }
            } else if revision == 2 {
                match job::MID0031rev2::decode(decoder) {
                    Ok(payload) => Ok(Message::MID0031rev2(payload)),
                    Err(e) => Err(e),
                }
            } else {
                Err(decode::Error::NotImplemented)
            }
        } else if mid == 32 {
            if revision == 1 {
                match job::MID0032rev1::decode(decoder) {
                    Ok(payload) => Ok(Message::MID0032rev1(payload)),
                    Err(e) => Err(e),
                }
            } else if revision == 2 {
                match job::MID0032rev2::decode(decoder) {
                    Ok(payload) => Ok(Message::MID0032rev2(payload)),
                    Err(e) => Err(e),
                }
            } else {
                Err(decode::Error::NotImplemented)
            }
        } else if mid == 33 {
            if revision == 1 {
                match job::MID0033rev1::decode(decoder) {
                    Ok(payload) => Ok(Message::MID0033rev1(payload)),
                    Err(e) => Err(e),
                }
            } else {
                Err(decode::Error::NotImplemented)
            }
        } else if mid == 34 {
            if revision == 1 {
                match job::MID0034rev1::decode(decoder) {
                    Ok(payload) => Ok(Message::MID0034rev1(payload)),
                    Err(e) => Err(e),
                }
            } else {
                Err(decode::Error::NotImplemented)
            }
        } else if mid == 35 {
            if revision == 1 {
                match job::MID0035rev1::decode(decoder) {
                    Ok(payload) => Ok(Message::MID0035rev1(payload)),
                    Err(e) => Err(e),
                }
            } else {
                Err(decode::Error::NotImplemented)
            }
        } else if mid == 36 {
            if revision == 1 {
                match job::MID0036rev1::decode(decoder) {
                    Ok(payload) => Ok(Message::MID0036rev1(payload)),
                    Err(e) => Err(e),
                }
            } else {
                Err(decode::Error::NotImplemented)
            }
        } else if mid == 37 {
            if revision == 1 {
                match job::MID0037rev1::decode(decoder) {
                    Ok(payload) => Ok(Message::MID0037rev1(payload)),
                    Err(e) => Err(e),
                }
            } else {
                Err(decode::Error::NotImplemented)
            }
        } else if mid == 38 {
            if revision == 1 {
                match job::MID0038rev1::decode(decoder) {
                    Ok(payload) => Ok(Message::MID0038rev1(payload)),
                    Err(e) => Err(e),
                }
            } else if revision == 2 {
                match job::MID0038rev2::decode(decoder) {
                    Ok(payload) => Ok(Message::MID0038rev2(payload)),
                    Err(e) => Err(e),
                }
            } else {
                Err(decode::Error::NotImplemented)
            }
        } else if mid == 39 {
            if revision == 1 {
                match job::MID0039rev1::decode(decoder) {
                    Ok(payload) => Ok(Message::MID0039rev1(payload)),
                    Err(e) => Err(e),
                }
            } else if revision == 2 {
                match job::MID0039rev2::decode(decoder) {
                    Ok(payload) => Ok(Message::MID0039rev2(payload)),
                    Err(e) => Err(e),
                }
            } else {
                Err(decode::Error::NotImplemented)
            }
        } else {
            Err(decode::Error::NotImplemented)
        }
    }

    /// Reading a payload of the group `tool`.
    pub open spec fn parse_tool(mid: u16, revision: u16, bytes: Seq<u8>, pos: int) -> Parsed<
        MessageView,
    > {
        if mid == 40 {
            if revision == 6 {
                match tool::MID0040rev6::parse(bytes, pos) {
                    Ok((payload, end)) => Ok((MessageView::MID0040rev6(payload), end)),
                    Err(e) => Err(e),
                }
            } else {
                Err((ErrorView::NotImplemented, pos))
            }
        } else if mid == 41 {
            if revision == 1 {
                match tool::MID0041rev1::parse(bytes, pos) {
                    Ok((payload, end)) => Ok((MessageView::MID0041rev1(payload), end)),
                    Err(e) => Err(e),
                }
            } else if revision == 2 {
                match tool::MID0041rev2::parse(bytes, pos) {
                    Ok((payload, end)) => Ok((MessageView::MID0041rev2(payload), end)),
                    Err(e) => Err(e),
                }
            } else {
                Err((ErrorView::NotImplemented, pos))
            }
        } else if mid == 42 {
            if revision == 2 {
                match tool::MID0042rev2::parse(bytes, pos) {
                    Ok((payload, end)) => Ok((MessageView::MID0042rev2(payload), end)),
                    Err(e) => Err(e),
                }
            } else {
                Err((ErrorView::NotImplemented, pos))
            }
        } else if mid == 43 {
            if revision == 2 {
                match tool::MID0043rev2::parse(bytes, pos) {
                    Ok((payload, end)) => Ok((MessageView::MID0043rev2(payload), end)),
                    Err(e) => Err(e),
                }
            } else {
                Err((ErrorView::NotImplemented, pos))
            }
        } else if mid == 44 {
            if revision == 1 {
                match tool::MID0044rev1::parse(bytes, pos) {
                    Ok((payload, end)) => Ok((MessageView::MID0044rev1(payload), end)),
                    Err(e) => Err(e),
                }
            } else {
                Err((ErrorView::NotImplemented, pos))
            }
        } else if mid == 45 {
            if revision == 1 {
                match tool::MID0045rev1::parse(bytes, pos) {
                    Ok((payload, end)) => Ok((MessageView::MID0045rev1(payload), end)),
                    Err(e) => Err(e),
                }
            } else if revision == 2 {
                match tool::MID0045rev2::parse(bytes, pos) {
                    Ok((payload, end)) => Ok((MessageView::MID0045rev2(payload), end)),
                    Err(e) => Err(e),
                }
            } else {
                Err((ErrorView::NotImplemented, pos))
            }
        } else if mid == 46 {
            if revision == 1 {
                match tool::MID0046rev1::parse(bytes, pos) {
                    Ok((payload, end)) => Ok((MessageView::MID0046rev1(payload), end)),
                    Err(e) => Err(e),
                }
            } else {
                Err((ErrorView::NotImplemented, pos))
            }
        } else if mid == 47 {
            if revision == 1 {
                match tool::MID0047rev1::parse(bytes, pos) {
                    Ok((payload, end)) => Ok((MessageView::MID0047rev1(payload), end)),
                    Err(e) => Err(e),
                }
            } else {
                Err((ErrorView::NotImplemented, pos))
            }
        } else if mid == 48 {
            if revision == 1 {
                match tool::MID0048rev1::parse(bytes, pos) {
                    Ok((payload, end)) => Ok((MessageView::MID0048rev1(payload), end)),
                    Err(e) => Err(e),
                }
            } else {
                Err((ErrorView::NotImplemented, pos))
            }
        } else {
            Err((ErrorView::NotImplemented, pos))
        }
    }

    /// Reads a payload of the group `tool`.
    fn decode_tool(mid: u16, revision: u16, decoder: &mut Decoder) -> (r: decode::Result<Self>)
        ensures
            decodes(
                old(decoder)@,
                final(decoder)@,
                r,
                Self::parse_tool(mid, revision, old(decoder)@.bytes, old(decoder)@.cursor),
                Self::zoned(mid, revision) && Self::stops_payload(
                    mid,
                    revision,
                    old(decoder)@.bytes,
                    old(decoder)@.cursor,
                    final(decoder)@.cursor,
                ),
            ),
    {
        if mid == 40 {
            if revision == 6 {
                match tool::MID0040rev6::decode(decoder) {
                    Ok(payload) => Ok(Message::MID0040rev6(payload)),
                    Err(e) => Err(e),
                }
            } else {
                Err(decode::Error::NotImplemented)
            }
        } else if mid == 41 {
            if revision == 1 {
                match tool::MID0041rev1::decode(decoder) {
                    Ok(payload) => Ok(Message::MID0041rev1(payload)),
                    Err(e) => Err(e),
                }
            } else if revision == 2 {
                match tool::MID0041rev2::decode(decoder) {
                    Ok(payload) => Ok(Message::MID0041rev2(payload)),
                    Err(e) => Err(e),
                }
            } else {
                Err(decode::Error::NotImplemented)
            }
        } else if mid == 42 {
            if revision == 2 {
                match tool::MID0042rev2::decode(decoder) {
                    Ok(payload) => Ok(Message::MID0042rev2(payload)),
                    Err(e) => Err(e),
                }
            } else {
                Err(decode::Error::NotImplemented)
            }
        } else if mid == 43 {
            if revision == 2 {
                match tool::MID0043rev2::decode(decoder) {
                    Ok(payload) => Ok(Message::MID0043rev2(payload)),
                    Err(e) => Err(e),
                }
            } else {
                Err(decode::Error::NotImplemented)
            }
        } else if mid == 44 {
            if revision == 1 {
                match tool::MID0044rev1::decode(decoder) {
                    Ok(payload) => Ok(Message::MID0044rev1(payload)),
                    Err(e) => Err(e),
                }
            } else {
                Err(decode::Error::NotImplemented)
            }
        } else if mid == 45 {
            if revision == 1 {
                match tool::MID0045rev1::decode(decoder) {
                    Ok(payload) => Ok(Message::MID0045rev1(payload)),
                    Err(e) => Err(e),
                }
            } else if revision == 2 {
                match tool::MID0045rev2::decode(decoder) {
                    Ok(payload) => Ok(Message::MID0045rev2(payload)),
                    Err(e) => Err(e),
                }
            } else {
                Err(decode::Error::NotImplemented)
            }
        } else if mid == 46 {
            if revision == 1 {
                match tool::MID0046rev1::decode(decoder) {
                    Ok(payload) => Ok(Message::MID0046rev1(payload)),
                    Err(e) => Err(e),
                }
            } else {
                Err(decode::Error::NotImplemented)
            }
        } else if mid == 47 {
            if revision == 1 {
                match tool::MID0047rev1::decode(decoder) {
                    Ok(payload) => Ok(Message::MID0047rev1(payload)),
                    Err(e) => Err(e),
                }
            } else {
                Err(decode::Error::NotImplemented)
            }
        } else if mid == 48 {
            if revision == 1 {
                match tool::MID0048rev1::decode(decoder) {
                    Ok(payload) => Ok(Message::MID0048rev1(payload)),
                    Err(e) => Err(e),
                }
            } else {
                Err(decode::Error::NotImplemented)
            }
        } else {
            Err(decode::Error::NotImplemented)
        }
    }

    /// Reading a payload of the group `vin`.
    pub open spec fn parse_vin(mid: u16, revision: u16, bytes: Seq<u8>, pos: int) -> Parsed<
        MessageView,
    > {
        if mid == 50 {
            if revision == 1 {
                match vin::MID0050rev1::parse(bytes, pos) {
                    Ok((payload, end)) => Ok((MessageView::MID0050rev1(payload), end)),
                    Err(e) => Err(e),
                }
            } else {
                Err((ErrorView::NotImplemented, pos))
            }
        } else if mid == 51 {
            if revision == 1 {
                match vin::MID0051rev1::parse(bytes, pos) {
                    Ok((payload, end)) => Ok((MessageView::MID0051rev1(payload), end)),
                    Err(e) => Err(e),
                }
            } else {
                Err((ErrorView::NotImplemented, pos))
            }
        } else if mid == 52 {
            if revision == 1 {
                match vin::MID0052rev1::parse(bytes, pos) {
                    Ok((payload, end)) => Ok((MessageView::MID0052rev1(payload), end)),
                    Err(e) => Err(e),
                }
            } else if revision == 2 {
                match vin::MID0052rev2::parse(bytes, pos) {
                    Ok((payload, end)) => Ok((MessageView::MID0052rev2(payload), end)),
                    Err(e) => Err(e),
                }
            } else {
                Err((ErrorView::NotImplemented, pos))
            }
        } else if mid == 53 {
            if revision == 1 {
                match vin::MID0053rev1::parse(bytes, pos) {
                    Ok((payload, end)) => Ok((MessageView::MID0053rev1(payload), end)),
                    Err(e) => Err(e),
                }
            } else {
                Err((ErrorView::NotImplemented, pos))
            }
        } else if mid == 54 {
            if revision == 1 {
                match vin::MID0054rev1::parse(bytes, pos) {
                    Ok((payload, end)) => Ok((MessageView::MID0054rev1(payload), end)),
                    Err(e) => Err(e),
                }
            } else if revision == 2 {
                match vin::MID0054rev2::parse(bytes, pos) {
                    Ok((payload, end)) => Ok((MessageView::MID0054rev2(payload), end)),
                    Err(e) => Err(e),
                }
            } else {
                Err((ErrorView::NotImplemented, pos))
            }
        } else {
            Err((ErrorView::NotImplemented, pos))
        }
    }

    /// Reads a payload of the group `vin`.
    fn decode_vin(mid: u16, revision: u16, decoder: &mut Decoder) -> (r: decode::Result<Self>)
        ensures
            decodes(
                old(decoder)@,
                final(decoder)@,
                r,
                Self::parse_vin(mid, revision, old(decoder)@.bytes, old(decoder)@.cursor),
                Self::zoned(mid, revision) && Self::stops_payload(
                    mid,
                    revision,
                    old(decoder)@.bytes,
                    old(decoder)@.cursor,
                    final(decoder)@.cursor,
                ),
            ),
    {
        if mid == 50 {
            if revision == 1 {
                match vin::MID0050rev1::decode(decoder) {
                    Ok(payload) => Ok(Message::MID0050rev1(payload)),
                    Err(e) => Err(e),
                }
            } else {
                Err(decode::Error::NotImplemented)
            }
        } else if mid == 51 {
            if revision == 1 {
                match vin::MID0051rev1::decode(decoder) {
                    Ok(payload) => Ok(Message::MID0051rev1(payload)),
                    Err(e) => Err(e),
                }
            } else {
                Err(decode::Error::NotImplemented)
            }
        } else if mid == 52 {
            if revision == 1 {
                match vin::MID0052rev1::decode(decoder) {
                    Ok(payload) => Ok(Message::MID0052rev1(payload)),
                    Err(e) => Err(e),
                }
            } else if revision == 2 {
                match vin::MID0052rev2::decode(decoder) {
                    Ok(payload) => Ok(Message::MID0052rev2(payload)),
                    Err(e) => Err(e),
                }
            } else {
                Err(decode::Error::NotImplemented)
            }
        } else if mid == 53 {
            if revision == 1 {
                match vin::MID0053rev1::decode(decoder) {
                    Ok(payload) => Ok(Message::MID0053rev1(payload)),
                    Err(e) => Err(e),
                }
            } else {
                Err(decode::Error::NotImplemented)
            }
        } else if mid == 54 {
            if revision == 1 {
                match vin::MID0054rev1::decode(decoder) {
                    Ok(payload) => Ok(Message::MID0054rev1(payload)),
                    Err(e) => Err(e),
                }
            } else if revision == 2 {
                match vin::MID0054rev2::decode(decoder) {
                    Ok(payload) => Ok(Message::MID0054rev2(payload)),
                    Err(e) => Err(e),
                }
            } else {
                Err(decode::Error::NotImplemented)
            }
        } else {
            Err(decode::Error::NotImplemented)
        }
    }

    /// Reading a payload of the group `tightening_result`.
    pub open spec fn parse_tightening_result(mid: u16, revision: u16, bytes: Seq<u8>, pos: int) -> Parsed<
        MessageView,
    > {
        if mid == 60 {
            if revision == 1 {
                match tightening_result::MID0060rev1::parse(bytes, pos) {
                    Ok((payload, end)) => Ok((MessageView::MID0060rev1(payload), end)),
                    Err(e) => Err(e),
                }
            } else {
                Err((ErrorView::NotImplemented, pos))
            }
        } else if mid == 61 {
            if revision == 1 {
                match tightening_result::MID0061rev1::parse(bytes, pos) {
                    Ok((payload, end)) => Ok((MessageView::MID0061rev1(payload), end)),
                    Err(e) => Err(e),
                }
            } else if revision == 2 {
                match tightening_result::MID0061rev2::parse(bytes, pos) {
                    Ok((payload, end)) => Ok((MessageView::MID0061rev2(payload), end)),
                    Err(e) => Err(e),
                }
            } else if revision == 3 {
                match tightening_result::MID0061rev3::parse(bytes, pos) {
                    Ok((payload, end)) => Ok((MessageView::MID0061rev3(payload), end)),
                    Err(e) => Err(e),
                }
            } else {
                Err((ErrorView::NotImplemented, pos))
            }
        } else if mid == 62 {
            if revision == 1 {
                match tightening_result::MID0062rev1::parse(bytes, pos) {
                    Ok((payload, end)) => Ok((MessageView::MID0062rev1(payload), end)),
                    Err(e) => Err(e),
                }
            } else {
                Err((ErrorView::NotImplemented, pos))
            }
        } else if mid == 63 {
            if revision == 1 {
                match tightening_result::MID0063rev1::parse(bytes, pos) {
                    Ok((payload, end)) => Ok((MessageView::MID0063rev1(payload), end)),
                    Err(e) => Err(e),
                }
            } else {
                Err((ErrorView::NotImplemented, pos))
            }
        } else if mid == 64 {
            if revision == 1 {
                match tightening_result::MID0064rev1::parse(bytes, pos) {
                    Ok((payload, end)) => Ok((MessageView::MID0064rev1(payload), end)),
                    Err(e) => Err(e),
                }
            } else {
                Err((ErrorView::NotImplemented, pos))
            }
        } else if mid == 65 {
            if revision == 1 {
                match tightening_result::MID0065rev1::parse(bytes, pos) {
                    Ok((payload, end)) => Ok((MessageView::MID0065rev1(payload), end)),
                    Err(e) => Err(e),
                }
            } else {
                Err((ErrorView::NotImplemented, pos))
            }
        } else if mid == 66 {
            if revision == 1 {
                match tightening_result::MID0066rev1::parse(bytes, pos) {
                    Ok((payload, end)) => Ok((MessageView::MID0066rev1(payload), end)),
                    Err(e) => Err(e),
                }
            } else if revision == 2 {
                match tightening_result::MID0066rev2::parse(bytes, pos) {
                    Ok((payload, end)) => Ok((MessageView::MID0066rev2(payload), end)),
                    Err(e) => Err(e),
                }
            } else {
                Err((ErrorView::NotImplemented, pos))
            }
        } else if mid == 67 {
            if revision == 1 {
                match tightening_result::MID0067rev1::parse(bytes, pos) {
                    Ok((payload, end)) => Ok((MessageView::MID0067rev1(payload), end)),
                    Err(e) => Err(e),
                }
            } else {
                Err((ErrorView::NotImplemented, pos))
            }
        } else if mid == 900 {
            if revision == 1 {
                match tightening_result::MID0900rev1::parse(bytes, pos) {
                    Ok((payload, end)) => Ok((MessageView::MID0900rev1(payload), end)),
                    Err(e) => Err(e),
                }
            } else if revision == 2 {
                match tightening_result::MID0900rev2::parse(bytes, pos) {
                    Ok((payload, end)) => Ok((MessageView::MID0900rev2(payload), end)),
                    Err(e) => Err(e),
                }
            } else if revision == 3 {
                match tightening_result::MID0900rev3::parse(bytes, pos) {
                    Ok((payload, end)) => Ok((MessageView::MID0900rev3(payload), end)),
                    Err(e) => Err(e),
                }
            } else {
                Err((ErrorView::NotImplemented, pos))
            }
        } else if mid == 901 {
            if revision == 1 {
                match tightening_result::MID0901rev1::parse(bytes, pos) {
                    Ok((payload, end)) => Ok((MessageView::MID0901rev1(payload), end)),
                    Err(e) => Err(e),
                }
            } else if revision == 2 {
                match tightening_result::MID0901rev2::parse(bytes, pos) {
                    Ok((payload, end)) => Ok((MessageView::MID0901rev2(payload), end)),
                    Err(e) => Err(e),
                }
            } else if revision == 3 {
                match tightening_result::MID0901rev3::parse(bytes, pos) {
                    Ok((payload, end)) => Ok((MessageView::MID0901rev3(payload), end)),
                    Err(e) => Err(e),
                }
            } else {
                Err((ErrorView::NotImplemented, pos))
            }
        } else if mid == 902 {
            if revision == 1 {
                match tightening_result::MID0902rev1::parse(bytes, pos) {
                    Ok((payload, end)) => Ok((MessageView::MID0902rev1(payload), end)),
                    Err(e) => Err(e),
                }
            } else {
                Err((ErrorView::NotImplemented, pos))
            }
        } else {
            Err((ErrorView::NotImplemented, pos))
        }
    }

    /// Reads a payload of the group `tightening_result`.
    fn decode_tightening_result(mid: u16, revision: u16, decoder: &mut Decoder) -> (r: decode::Result<Self>)
        ensures
            decodes(
                old(decoder)@,
                final(decoder)@,
                r,
                Self::parse_tightening_result(mid, revision, old(decoder)@.bytes, old(decoder)@.cursor),
                Self::zoned(mid, revision) && Self::stops_payload(
                    mid,
                    revision,
                    old(decoder)@.bytes,
                    old(decoder)@.cursor,
                    final(decoder)@.cursor,
                ),
            ),
    {
        if mid == 60 {
            if revision == 1 {
                match tightening_result::MID0060rev1::decode(decoder) {
                    Ok(payload) => Ok(Message::MID0060rev1(payload)),
                    Err(e) => Err(e),
                }
            } else {
                Err(decode::Error::NotImplemented)
            }
        } else if mid == 61 {
            if revision == 1 {
                match tightening_result::MID0061rev1::decode(decoder) {
                    Ok(payload) => Ok(Message::MID0061rev1(payload)),
                    Err(e) => Err(e),
                }
            } else if revision == 2 {
                match tightening_result::MID0061rev2::decode(decoder) {
                    Ok(payload) => Ok(Message::MID0061rev2(payload)),
                    Err(e) => Err(e),
                }
            } else if revision == 3 {
                match tightening_result::MID0061rev3::decode(decoder) {
                    Ok(payload) => Ok(Message::MID0061rev3(payload)),
                    Err(e) => Err(e),
                }
            } else {
                Err(decode::Error::NotImplemented)
            }
        } else if mid == 62 {
            if revision == 1 {
                match tightening_result::MID0062rev1::decode(decoder) {
                    Ok(payload) => Ok(Message::MID0062rev1(payload)),
                    Err(e) => Err(e),
                }
            } else {
                Err(decode::Error::NotImplemented)
            }
        } else if mid == 63 {
            if revision == 1 {
                match tightening_result::MID0063rev1::decode(decoder) {
                    Ok(payload) => Ok(Message::MID0063rev1(payload)),
                    Err(e) => Err(e),
                }
            } else {
                Err(decode::Error::NotImplemented)
            }
        } else if mid == 64 {
            if revision == 1 {
                match tightening_result::MID0064rev1::decode(decoder) {
                    Ok(payload) => Ok(Message::MID0064rev1(payload)),
                    Err(e) => Err(e),
                }
            } else {
                Err(decode::Error::NotImplemented)
            }
        } else if mid == 65 {
            if revision == 1 {
                match tightening_result::MID0065rev1::decode(decoder) {
                    Ok(payload) => Ok(Message::MID0065rev1(payload)),
                    Err(e) => Err(e),
                }
            } else {
                Err(decode::Error::NotImplemented)
            }
        } else if mid == 66 {
            if revision == 1 {
                match tightening_result::MID0066rev1::decode(decoder) {
                    Ok(payload) => Ok(Message::MID0066rev1(payload)),
                    Err(e) => Err(e),
                }
            } else if revision == 2 {
                match tightening_result::MID0066rev2::decode(decoder) {
                    Ok(payload) => Ok(Message::MID0066rev2(payload)),
                    Err(e) => Err(e),
                }
            } else {
                Err(decode::Error::NotImplemented)
            }
        } else if mid == 67 {
            if revision == 1 {
                match tightening_result::MID0067rev1::decode(decoder) {
                    Ok(payload) => Ok(Message::MID0067rev1(payload)),
                    Err(e) => Err(e),
                }
            } else {
                Err(decode::Error::NotImplemented)
            }
        } else if mid == 900 {
            if revision == 1 {
                match tightening_result::MID0900rev1::decode(decoder) {
                    Ok(payload) => Ok(Message::MID0900rev1(payload)),
                    Err(e) => Err(e),
                }
            } else if revision == 2 {
                match tightening_result::MID0900rev2::decode(decoder) {
                    Ok(payload) => Ok(Message::MID0900rev2(payload)),
                    Err(e) => Err(e),
                }
            } else if revision == 3 {
                match tightening_result::MID0900rev3::decode(decoder) {
                    Ok(payload) => Ok(Message::MID0900rev3(payload)),
                    Err(e) => Err(e),
                }
            } else {
                Err(decode::Error::NotImplemented)
            }
        } else if mid == 901 {
            if revision == 1 {
                match tightening_result::MID0901rev1::decode(decoder) {
                    Ok(payload) => Ok(Message::MID0901rev1(payload)),
                    Err(e) => Err(e),
                }
            } else if revision == 2 {
                match tightening_result::MID0901rev2::decode(decoder) {
                    Ok(payload) => Ok(Message::MID0901rev2(payload)),
                    Err(e) => Err(e),
                }
            } else if revision == 3 {
                match tightening_result::MID0901rev3::decode(decoder) {
                    Ok(payload) => Ok(Message::MID0901rev3(payload)),
                    Err(e) => Err(e),
                }
            } else {
                Err(decode::Error::NotImplemented)
            }
        } else if mid == 902 {
            if revision == 1 {
                match tightening_result::MID0902rev1::decode(decoder) {
                    Ok(payload) => Ok(Message::MID0902rev1(payload)),
                    Err(e) => Err(e),
                }
            } else {
                Err(decode::Error::NotImplemented)
            }
        } else {
            Err(decode::Error::NotImplemented)
        }
    }

    /// Reading a payload of the group `result`.
    pub open spec fn parse_result(mid: u16, revision: u16, bytes: Seq<u8>, pos: int) -> Parsed<
        MessageView,
    > {
        if mid == 1201 {
            if revision == 1 {
                match result::MID1201rev1::parse(bytes, pos) {
                    Ok((payload, end)) => Ok((MessageView::MID1201rev1(payload), end)),
                    Err(e) => Err(e),
                }
            } else if revision == 2 {
                match result::MID1201rev2::parse(bytes, pos) {
                    Ok((payload, end)) => Ok((MessageView::MID1201rev2(payload), end)),
                    Err(e) => Err(e),
                }
            } else if revision == 3 {
                match result::MID1201rev3::parse(bytes, pos) {
                    Ok((payload, end)) => Ok((MessageView::MID1201rev3(payload), end)),
                    Err(e) => Err(e),
                }
            } else {
                Err((ErrorView::NotImplemented, pos))
            }
        } else if mid == 1202 {
            if revision == 1 {
                match result::MID1202rev1::parse(bytes, pos) {
                    Ok((payload, end)) => Ok((MessageView::MID1202rev1(payload), end)),
                    Err(e) => Err(e),
                }
            } else if revision == 2 {
                match result::MID1202rev2::parse(bytes, pos) {
                    Ok((payload, end)) => Ok((MessageView::MID1202rev2(payload), end)),
                    Err(e) => Err(e),
                }
            } else {
                Err((ErrorView::NotImplemented, pos))
            }
        } else if mid == 1203 {
            if revision == 1 {
                match result::MID1203rev1::parse(bytes, pos) {
                    Ok((payload, end)) => Ok((MessageView::MID1203rev1(payload), end)),
                    Err(e) => Err(e),
                }
            } else {
                Err((ErrorView::NotImplemented, pos))
            }
        } else {
            Err((ErrorView::NotImplemented, pos))
        }
    }

    /// Reads a payload of the group `result`.
    fn decode_result(mid: u16, revision: u16, decoder: &mut Decoder) -> (r: decode::Result<Self>)
        ensures
            decodes(
                old(decoder)@,
                final(decoder)@,
                r,
                Self::parse_result(mid, revision, old(decoder)@.bytes, old(decoder)@.cursor),
                Self::zoned(mid, revision) && Self::stops_payload(
                    mid,
                    revision,
                    old(decoder)@.bytes,
                    old(decoder)@.cursor,
                    final(decoder)@.cursor,
                ),
            ),
    {
        if mid == 1201 {
            if revision == 1 {
                match result::MID1201rev1::decode(decoder) {
                    Ok(payload) => Ok(Message::MID1201rev1(payload)),
                    Err(e) => Err(e),
                }
            } else if revision == 2 {
                match result::MID1201rev2::decode(decoder) {
                    Ok(payload) => Ok(Message::MID1201rev2(payload)),
                    Err(e) => Err(e),
                }
            } else if revision == 3 {
                match result::MID1201rev3::decode(decoder) {
                    Ok(payload) => Ok(Message::MID1201rev3(payload)),
                    Err(e) => Err(e),
                }
            } else {
                Err(decode::Error::NotImplemented)
            }
        } else if mid == 1202 {
            if revision == 1 {
                match result::MID1202rev1::decode(decoder) {
                    Ok(payload) => Ok(Message::MID1202rev1(payload)),
                    Err(e) => Err(e),
                }
            } else if revision == 2 {
                match result::MID1202rev2::decode(decoder) {
                    Ok(payload) => Ok(Message::MID1202rev2(payload)),
                    Err(e) => Err(e),
                }
            } else {
                Err(decode::Error::NotImplemented)
            }
        } else if mid == 1203 {
            if revision == 1 {
                match result::MID1203rev1::decode(decoder) {
                    Ok(payload) => Ok(Message::MID1203rev1(payload)),
                    Err(e) => Err(e),
                }
            } else {
                Err(decode::Error::NotImplemented)
            }
        } else {
            Err(decode::Error::NotImplemented)
        }
    }

    /// Reading a payload of the group `alarm`.
    pub open spec fn parse_alarm(mid: u16, revision: u16, bytes: Seq<u8>, pos: int) -> Parsed<
        MessageView,
    > {
        if mid == 70 {
            if revision == 1 {
                match alarm::MID0070rev1::parse(bytes, pos) {
                    Ok((payload, end)) => Ok((MessageView::MID0070rev1(payload), end)),
                    Err(e) => Err(e),
                }
            } else {
                Err((ErrorView::NotImplemented, pos))
            }
        } else if mid == 71 {
            if revision == 1 {
                match alarm::MID0071rev1::parse(bytes, pos) {
                    Ok((payload, end)) => Ok((MessageView::MID0071rev1(payload), end)),
                    Err(e) => Err(e),
                }
            } else {
                Err((ErrorView::NotImplemented, pos))
            }
        } else if mid == 72 {
            if revision == 1 {
                match alarm::MID0072rev1::parse(bytes, pos) {
                    Ok((payload, end)) => Ok((MessageView::MID0072rev1(payload), end)),
                    Err(e) => Err(e),
                }
            } else {
                Err((ErrorView::NotImplemented, pos))
            }
        } else if mid == 73 {
            if revision == 1 {
                match alarm::MID0073rev1::parse(bytes, pos) {
                    Ok((payload, end)) => Ok((MessageView::MID0073rev1(payload), end)),
                    Err(e) => Err(e),
                }
            } else {
                Err((ErrorView::NotImplemented, pos))
            }
        } else if mid == 74 {
            if revision == 1 {
                match alarm::MID0074rev1::parse(bytes, pos) {
                    Ok((payload, end)) => Ok((MessageView::MID0074rev1(payload), end)),
                    Err(e) => Err(e),
                }
            } else {
                Err((ErrorView::NotImplemented, pos))
            }
        } else if mid == 75 {
            if revision == 1 {
                match alarm::MID0075rev1::parse(bytes, pos) {
                    Ok((payload, end)) => Ok((MessageView::MID0075rev1(payload), end)),
                    Err(e) => Err(e),
                }
            } else {
                Err((ErrorView::NotImplemented, pos))
            }
        } else if mid == 76 {
            if revision == 1 {
                match alarm::MID0076rev1::parse(bytes, pos) {
                    Ok((payload, end)) => Ok((MessageView::MID0076rev1(payload), end)),
                    Err(e) => Err(e),
                }
            } else {
                Err((ErrorView::NotImplemented, pos))
            }
        } else if mid == 77 {
            if revision == 1 {
                match alarm::MID0077rev1::parse(bytes, pos) {
                    Ok((payload, end)) => Ok((MessageView::MID0077rev1(payload), end)),
                    Err(e) => Err(e),
                }
            } else {
                Err((ErrorView::NotImplemented, pos))
            }
        } else if mid == 78 {
            if revision == 1 {
                match alarm::MID0078rev1::parse(bytes, pos) {
                    Ok((payload, end)) => Ok((MessageView::MID0078rev1(payload), end)),
                    Err(e) => Err(e),
                }
            } else {
                Err((ErrorView::NotImplemented, pos))
            }
        } else if mid == 1000 {
            if revision == 1 {
                match alarm::MID1000rev1::parse(bytes, pos) {
                    Ok((payload, end)) => Ok((MessageView::MID1000rev1(payload), end)),
                    Err(e) => Err(e),
                }
            } else {
                Err((ErrorView::NotImplemented, pos))
            }
        } else if mid == 1001 {
            if revision == 1 {
                match alarm::MID1001rev1::parse(bytes, pos) {
                    Ok((payload, end)) => Ok((MessageView::MID1001rev1(payload), end)),
                    Err(e) => Err(e),
                }
            } else {
                Err((ErrorView::NotImplemented, pos))
            }
        } else {
            Err((ErrorView::NotImplemented, pos))
        }
    }

    /// Reads a payload of the group `alarm`.
    fn decode_alarm(mid: u16, revision: u16, decoder: &mut Decoder) -> (r: decode::Result<Self>)
        ensures
            decodes(
                old(decoder)@,
                final(decoder)@,
                r,
                Self::parse_alarm(mid, revision, old(decoder)@.bytes, old(decoder)@.cursor),
                Self::zoned(mid, revision) && Self::stops_payload(
                    mid,
                    revision,
                    old(decoder)@.bytes,
                    old(decoder)@.cursor,
                    final(decoder)@.cursor,
                ),
            ),
    {
        if mid == 70 {
            if revision == 1 {
                match alarm::MID0070rev1::decode(decoder) {
                    Ok(payload) => Ok(Message::MID0070rev1(payload)),
                    Err(e) => Err(e),
                }
            } else {
                Err(decode::Error::NotImplemented)
            }
        } else if mid == 71 {
            if revision == 1 {
                match alarm::MID0071rev1::decode(decoder) {
                    Ok(payload) => Ok(Message::MID0071rev1(payload)),
                    Err(e) => Err(e),
                }
            } else {
                Err(decode::Error::NotImplemented)
            }
        } else if mid == 72 {
            if revision == 1 {
                match alarm::MID0072rev1::decode(decoder) {
                    Ok(payload) => Ok(Message::MID0072rev1(payload)),
                    Err(e) => Err(e),
                }
            } else {
                Err(decode::Error::NotImplemented)
            }
        } else if mid == 73 {
            if revision == 1 {
                match alarm::MID0073rev1::decode(decoder) {
                    Ok(payload) => Ok(Message::MID0073rev1(payload)),
                    Err(e) => Err(e),
                }
            } else {
                Err(decode::Error::NotImplemented)
            }
        } else if mid == 74 {
            if revision == 1 {
                match alarm::MID0074rev1::decode(decoder) {
                    Ok(payload) => Ok(Message::MID0074rev1(payload)),
                    Err(e) => Err(e),
                }
            } else {
                Err(decode::Error::NotImplemented)
            }
        } else if mid == 75 {
            if revision == 1 {
                match alarm::MID0075rev1::decode(decoder) {
                    Ok(payload) => Ok(Message::MID0075rev1(payload)),
                    Err(e) => Err(e),
                }
            } else {
                Err(decode::Error::NotImplemented)
            }
        } else if mid == 76 {
            if revision == 1 {
                match alarm::MID0076rev1::decode(decoder) {
                    Ok(payload) => Ok(Message::MID0076rev1(payload)),
                    Err(e) => Err(e),
                }
            } else {
                Err(decode::Error::NotImplemented)
            }
        } else if mid == 77 {
            if revision == 1 {
                match alarm::MID0077rev1::decode(decoder) {
                    Ok(payload) => Ok(Message::MID0077rev1(payload)),
                    Err(e) => Err(e),
                }
            } else {
                Err(decode::Error::NotImplemented)
            }
        } else if mid == 78 {
            if revision == 1 {
                match alarm::MID0078rev1::decode(decoder) {
                    Ok(payload) => Ok(Message::MID0078rev1(payload)),
                    Err(e) => Err(e),
                }
            } else {
                Err(decode::Error::NotImplemented)
            }
        } else if mid == 1000 {
            if revision == 1 {
                match alarm::MID1000rev1::decode(decoder) {
                    Ok(payload) => Ok(Message::MID1000rev1(payload)),
                    Err(e) => Err(e),
                }
            } else {
                Err(decode::Error::NotImplemented)
            }
        } else if mid == 1001 {
            if revision == 1 {
                match alarm::MID1001rev1::decode(decoder) {
                    Ok(payload) => Ok(Message::MID1001rev1(payload)),
                    Err(e) => Err(e),
                }
            } else {
                Err(decode::Error::NotImplemented)
            }
        } else {
            Err(decode::Error::NotImplemented)
        }
    }

    /// Reading a payload of the group `time`.
    pub open spec fn parse_time(mid: u16, revision: u16, bytes: Seq<u8>, pos: int) -> Parsed<
        MessageView,
    > {
        if mid == 80 {
            if revision == 1 {
                match time::MID0080rev1::parse(bytes, pos) {
                    Ok((payload, end)) => Ok((MessageView::MID0080rev1(payload), end)),
                    Err(e) => Err(e),
                }
            } else {
                Err((ErrorView::NotImplemented, pos))
            }
        } else if mid == 81 {
            if revision == 1 {
                match time::MID0081rev1::parse(bytes, pos) {
                    Ok((payload, end)) => Ok((MessageView::MID0081rev1(payload), end)),
                    Err(e) => Err(e),
                }
            } else {
                Err((ErrorView::NotImplemented, pos))
            }
        } else if mid == 82 {
            if revision == 1 {
                match time::MID0082rev1::parse(bytes, pos) {
                    Ok((payload, end)) => Ok((MessageView::MID0082rev1(payload), end)),
                    Err(e) => Err(e),
                }
            } else {
                Err((ErrorView::NotImplemented, pos))
            }
        } else {
            Err((ErrorView::NotImplemented, pos))
        }
    }

    /// Reads a payload of the group `time`.
    fn decode_time(mid: u16, revision: u16, decoder: &mut Decoder) -> (r: decode::Result<Self>)
        ensures
            decodes(
                old(decoder)@,
                final(decoder)@,
                r,
                Self::parse_time(mid, revision, old(decoder)@.bytes, old(decoder)@.cursor),
                Self::zoned(mid, revision) && Self::stops_payload(
                    mid,
                    revision,
                    old(decoder)@.bytes,
                    old(decoder)@.cursor,
                    final(decoder)@.cursor,
                ),
            ),
    {
        if mid == 80 {
            if revision == 1 {
                match time::MID0080rev1::decode(decoder) {
                    Ok(payload) => Ok(Message::MID0080rev1(payload)),
                    Err(e) => Err(e),
                }
            } else {
                Err(decode::Error::NotImplemented)
            }
        } else if mid == 81 {
            if revision == 1 {
                match time::MID0081rev1::decode(decoder) {
                    Ok(payload) => Ok(Message::MID0081rev1(payload)),
                    Err(e) => Err(e),
                }
            } else {
                Err(decode::Error::NotImplemented)
            }
        } else if mid == 82 {
            if revision == 1 {
                match time::MID0082rev1::decode(decoder) {
                    Ok(payload) => Ok(Message::MID0082rev1(payload)),
                    Err(e) => Err(e),
                }
            } else {
                Err(decode::Error::NotImplemented)
            }
        } else {
            Err(decode::Error::NotImplemented)
        }
    }

    /// Reading a payload of the group `multi_spindle_status`.
    pub open spec fn parse_multi_spindle_status(mid: u16, revision: u16, bytes: Seq<u8>, pos: int) -> Parsed<
        MessageView,
    > {
        if mid == 90 {
            if revision == 1 {
                match multi_spindle_status::MID0090rev1::parse(bytes, pos) {
                    Ok((payload, end)) => Ok((MessageView::MID0090rev1(payload), end)),
                    Err(e) => Err(e),
                }
            } else {
                Err((ErrorView::NotImplemented, pos))
            }
        } else if mid == 91 {
            if revision == 1 {
                match multi_spindle_status::MID0091rev1::parse(bytes, pos) {
                    Ok((payload, end)) => Ok((MessageView::MID0091rev1(payload), end)),
                    Err(e) => Err(e),
                }
            } else {
                Err((ErrorView::NotImplemented, pos))
            }
        } else if mid == 92 {
            if revision == 1 {
                match multi_spindle_status::MID0092rev1::parse(bytes, pos) {
                    Ok((payload, end)) => Ok((MessageView::MID0092rev1(payload), end)),
                    Err(e) => Err(e),
                }
            } else {
                Err((ErrorView::NotImplemented, pos))
            }
        } else if mid == 93 {
            if revision == 1 {
                match multi_spindle_status::MID0093rev1::parse(bytes, pos) {
                    Ok((payload, end)) => Ok((MessageView::MID0093rev1(payload), end)),
                    Err(e) => Err(e),
                }
            } else {
                Err((ErrorView::NotImplemented, pos))
            }
        } else {
            Err((ErrorView::NotImplemented, pos))
        }
    }

    /// Reads a payload of the group `multi_spindle_status`.
    fn decode_multi_spindle_status(mid: u16, revision: u16, decoder: &mut Decoder) -> (r: decode::Result<Self>)
        ensures
            decodes(
                old(decoder)@,
                final(decoder)@,
                r,
                Self::parse_multi_spindle_status(mid, revision, old(decoder)@.bytes, old(decoder)@.cursor),
                Self::zoned(mid, revision) && Self::stops_payload(
                    mid,
                    revision,
                    old(decoder)@.bytes,
                    old(decoder)@.cursor,
                    final(decoder)@.cursor,
                ),
            ),
    {
        if mid == 90 {
            if revision == 1 {
                match multi_spindle_status::MID0090rev1::decode(decoder) {
                    Ok(payload) => Ok(Message::MID0090rev1(payload)),
                    Err(e) => Err(e),
                }
            } else {
                Err(decode::Error::NotImplemented)
            }
        } else if mid == 91 {
            if revision == 1 {
                match multi_spindle_status::MID0091rev1::decode(decoder) {
                    Ok(payload) => Ok(Message::MID0091rev1(payload)),
                    Err(e) => Err(e),
                }
            } else {
                Err(decode::Error::NotImplemented)
            }
        } else if mid == 92 {
            if revision == 1 {
                match multi_spindle_status::MID0092rev1::decode(decoder) {
                    Ok(payload) => Ok(Message::MID0092rev1(payload)),
                    Err(e) => Err(e),
                }
            } else {
                Err(decode::Error::NotImplemented)
            }
        } else if mid == 93 {
            if revision == 1 {
                match multi_spindle_status::MID0093rev1::decode(decoder) {
                    Ok(payload) => Ok(Message::MID0093rev1(payload)),
                    Err(e) => Err(e),
                }
            } else {
                Err(decode::Error::NotImplemented)
            }
        } else {
            Err(decode::Error::NotImplemented)
        }
    }

    /// Reading a payload of the group `multi_spindle_result`.
    pub open spec fn parse_multi_spindle_result(mid: u16, revision: u16, bytes: Seq<u8>, pos: int) -> Parsed<
        MessageView,
    > {
        if mid == 100 {
            if revision == 1 {
                match multi_spindle_result::MID0100rev1::parse(bytes, pos) {
                    Ok((payload, end)) => Ok((MessageView::MID0100rev1(payload), end)),
                    Err(e) => Err(e),
                }
            } else {
                Err((ErrorView::NotImplemented, pos))
            }
        } else if mid == 101 {
            if revision == 1 {
                match multi_spindle_result::MID0101rev1::parse(bytes, pos) {
                    Ok((payload, end)) => Ok((MessageView::MID0101rev1(payload), end)),
                    Err(e) => Err(e),
                }
            } else {
                Err((ErrorView::NotImplemented, pos))
            }
        } else if mid == 102 {
            if revision == 1 {
                match multi_spindle_result::MID0102rev1::parse(bytes, pos) {
                    Ok((payload, end)) => Ok((MessageView::MID0102rev1(payload), end)),
                    Err(e) => Err(e),
                }
            } else {
                Err((ErrorView::NotImplemented, pos))
            }
        } else if mid == 103 {
            if revision == 1 {
                match multi_spindle_result::MID0103rev1::parse(bytes, pos) {
                    Ok((payload, end)) => Ok((MessageView::MID0103rev1(payload), end)),
                    Err(e) => Err(e),
                }
            } else {
                Err((ErrorView::NotImplemented, pos))
            }
        } else if mid == 104 {
            if revision == 1 {
                match multi_spindle_result::MID0104rev1::parse(bytes, pos) {
                    Ok((payload, end)) => Ok((MessageView::MID0104rev1(payload), end)),
                    Err(e) => Err(e),
                }
            } else {
                Err((ErrorView::NotImplemented, pos))
            }
        } else {
            Err((ErrorView::NotImplemented, pos))
        }
    }

    /// Reads a payload of the group `multi_spindle_result`.
    fn decode_multi_spindle_result(mid: u16, revision: u16, decoder: &mut Decoder) -> (r: decode::Result<Self>)
        ensures
            decodes(
                old(decoder)@,
                final(decoder)@,
                r,
                Self::parse_multi_spindle_result(mid, revision, old(decoder)@.bytes, old(decoder)@.cursor),
                Self::zoned(mid, revision) && Self::stops_payload(
                    mid,
                    revision,
                    old(decoder)@.bytes,
                    old(decoder)@.cursor,
                    final(decoder)@.cursor,
                ),
            ),
    {
        if mid == 100 {
            if revision == 1 {
                match multi_spindle_result::MID0100rev1::decode(decoder) {
                    Ok(payload) => Ok(Message::MID0100rev1(payload)),
                    Err(e) => Err(e),
                }
            } else {
                Err(decode::Error::NotImplemented)
            }
        } else if mid == 101 {
            if revision == 1 {
                match multi_spindle_result::MID0101rev1::decode(decoder) {
                    Ok(payload) => Ok(Message::MID0101rev1(payload)),
                    Err(e) => Err(e),
                }
            } else {
                Err(decode::Error::NotImplemented)
            }
        } else if mid == 102 {
            if revision == 1 {
                match multi_spindle_result::MID0102rev1::decode(decoder) {
                    Ok(payload) => Ok(Message::MID0102rev1(payload)),
                    Err(e) => Err(e),
                }
            } else {
                Err(decode::Error::NotImplemented)
            }
        } else if mid == 103 {
            if revision == 1 {
                match multi_spindle_result::MID0103rev1::decode(decoder) {
                    Ok(payload) => Ok(Message::MID0103rev1(payload)),
                    Err(e) => Err(e),
                }
            } else {
                Err(decode::Error::NotImplemented)
            }
        } else if mid == 104 {
            if revision == 1 {
                match multi_spindle_result::MID0104rev1::decode(decoder) {
                    Ok(payload) => Ok(Message::MID0104rev1(payload)),
                    Err(e) => Err(e),
                }
            } else {
                Err(decode::Error::NotImplemented)
            }
        } else {
            Err(decode::Error::NotImplemented)
        }
    }

    /// Reading a payload of the group `powermacs_result`.
    pub open spec fn parse_powermacs_result(mid: u16, revision: u16, bytes: Seq<u8>, pos: int) -> Parsed<
        MessageView,
    > {
        if mid == 105 {
            if revision == 1 {
                match powermacs_result::MID0105rev1::parse(bytes, pos) {
                    Ok((payload, end)) => Ok((MessageView::MID0105rev1(payload), end)),
                    Err(e) => Err(e),
                }
            } else {
                Err((ErrorView::NotImplemented, pos))
            }
        } else if mid == 106 {
            if revision == 1 {
                match powermacs_result::MID0106rev1::parse(bytes, pos) {
                    Ok((payload, end)) => Ok((MessageView::MID0106rev1(payload), end)),
                    Err(e) => Err(e),
                }
            } else {
                Err((ErrorView::NotImplemented, pos))
            }
        } else if mid == 107 {
            if revision == 1 {
                match powermacs_result::MID0107rev1::parse(bytes, pos) {
                    Ok((payload, end)) => Ok((MessageView::MID0107rev1(payload), end)),
                    Err(e) => Err(e),
                }
            } else {
                Err((ErrorView::NotImplemented, pos))
            }
        } else if mid == 108 {
            if revision == 1 {
                match powermacs_result::MID0108rev1::parse(bytes, pos) {
                    Ok((payload, end)) => Ok((MessageView::MID0108rev1(payload), end)),
                    Err(e) => Err(e),
                }
            } else {
                Err((ErrorView::NotImplemented, pos))
            }
        } else if mid == 109 {
            if revision == 1 {
                match powermacs_result::MID0109rev1::parse(bytes, pos) {
                    Ok((payload, end)) => Ok((MessageView::MID0109rev1(payload), end)),
                    Err(e) => Err(e),
                }
            } else {
                Err((ErrorView::NotImplemented, pos))
            }
        } else {
            Err((ErrorView::NotImplemented, pos))
        }
    }

    /// Reads a payload of the group `powermacs_result`.
    fn decode_powermacs_result(mid: u16, revision: u16, decoder: &mut Decoder) -> (r: decode::Result<Self>)
        ensures
            decodes(
                old(decoder)@,
                final(decoder)@,
                r,
                Self::parse_powermacs_result(mid, revision, old(decoder)@.bytes, old(decoder)@.cursor),
                Self::zoned(mid, revision) && Self::stops_payload(
                    mid,
                    revision,
                    old(decoder)@.bytes,
                    old(decoder)@.cursor,
                    final(decoder)@.cursor,
                ),
            ),
    {
        if mid == 105 {
            if revision == 1 {
                match powermacs_result::MID0105rev1::decode(decoder) {
                    Ok(payload) => Ok(Message::MID0105rev1(payload)),
                    Err(e) => Err(e),
                }
            } else {
                Err(decode::Error::NotImplemented)
            }
        } else if mid == 106 {
            if revision == 1 {
                match powermacs_result::MID0106rev1::decode(decoder) {
                    Ok(payload) => Ok(Message::MID0106rev1(payload)),
                    Err(e) => Err(e),
                }
            } else {
                Err(decode::Error::NotImplemented)
            }
        } else if mid == 107 {
            if revision == 1 {
                match powermacs_result::MID0107rev1::decode(decoder) {
                    Ok(payload) => Ok(Message::MID0107rev1(payload)),
                    Err(e) => Err(e),
                }
            } else {
                Err(decode::Error::NotImplemented)
            }
        } else if mid == 108 {
            if revision == 1 {
                match powermacs_result::MID0108rev1::decode(decoder) {
                    Ok(payload) => Ok(Message::MID0108rev1(payload)),
                    Err(e) => Err(e),
                }
            } else {
                Err(decode::Error::NotImplemented)
            }
        } else if mid == 109 {
            if revision == 1 {
                match powermacs_result::MID0109rev1::decode(decoder) {
                    Ok(payload) => Ok(Message::MID0109rev1(payload)),
                    Err(e) => Err(e),
                }
            } else {
                Err(decode::Error::NotImplemented)
            }
        } else {
            Err(decode::Error::NotImplemented)
        }
    }

    /// Reading a payload of the group `user_interface`.
    pub open spec fn parse_user_interface(mid: u16, revision: u16, bytes: Seq<u8>, pos: int) -> Parsed<
        MessageView,
    > {
        if mid == 110 {
            if revision == 1 {
                match user_interface::MID0110rev1::parse(bytes, pos) {
                    Ok((payload, end)) => Ok((MessageView::MID0110rev1(payload), end)),
                    Err(e) => Err(e),
                }
            } else {
                Err((ErrorView::NotImplemented, pos))
            }
        } else if mid == 111 {
            if revision == 1 {
                match user_interface::MID0111rev1::parse(bytes, pos) {
                    Ok((payload, end)) => Ok((MessageView::MID0111rev1(payload), end)),
                    Err(e) => Err(e),
                }
            } else {
                Err((ErrorView::NotImplemented, pos))
            }
        } else if mid == 113 {
            if revision == 1 {
                match user_interface::MID0113rev1::parse(bytes, pos) {
                    Ok((payload, end)) => Ok((MessageView::MID0113rev1(payload), end)),
                    Err(e) => Err(e),
                }
            } else {
                Err((ErrorView::NotImplemented, pos))
            }
        } else {
            Err((ErrorView::NotImplemented, pos))
        }
    }

    /// Reads a payload of the group `user_interface`.
    fn decode_user_interface(mid: u16, revision: u16, decoder: &mut Decoder) -> (r: decode::Result<Self>)
        ensures
            decodes(
                old(decoder)@,
                final(decoder)@,
                r,
                Self::parse_user_interface(mid, revision, old(decoder)@.bytes, old(decoder)@.cursor),
                Self::zoned(mid, revision) && Self::stops_payload(
                    mid,
                    revision,
                    old(decoder)@.bytes,
                    old(decoder)@.cursor,
                    final(decoder)@.cursor,
                ),
            ),
    {
        if mid == 110 {
            if revision == 1 {
                match user_interface::MID0110rev1::decode(decoder) {
                    Ok(payload) => Ok(Message::MID0110rev1(payload)),
                    Err(e) => Err(e),
                }
            } else {
                Err(decode::Error::NotImplemented)
            }
        } else if mid == 111 {
            if revision == 1 {
                match user_interface::MID0111rev1::decode(decoder) {
                    Ok(payload) => Ok(Message::MID0111rev1(payload)),
                    Err(e) => Err(e),
                }
            } else {
                Err(decode::Error::NotImplemented)
            }
        } else if mid == 113 {
            if revision == 1 {
                match user_interface::MID0113rev1::decode(decoder) {
                    Ok(payload) => Ok(Message::MID0113rev1(payload)),
                    Err(e) => Err(e),
                }
            } else {
                Err(decode::Error::NotImplemented)
            }
        } else {
            Err(decode::Error::NotImplemented)
        }
    }

    /// Reading a payload of the group `keep_alive`.
    pub open spec fn parse_keep_alive(mid: u16, revision: u16, bytes: Seq<u8>, pos: int) -> Parsed<
        MessageView,
    > {
        if mid == 9999 {
            if revision == 1 {
                match keep_alive::MID9999rev1::parse(bytes, pos) {
                    Ok((payload, end)) => Ok((MessageView::MID9999rev1(payload), end)),
                    Err(e) => Err(e),
                }
            } else {
                Err((ErrorView::NotImplemented, pos))
            }
        } else {
            Err((ErrorView::NotImplemented, pos))
        }
    }

    /// Reads a payload of the group `keep_alive`.
    fn decode_keep_alive(mid: u16, revision: u16, decoder: &mut Decoder) -> (r: decode::Result<Self>)
        ensures
            decodes(
                old(decoder)@,
                final(decoder)@,
                r,
                Self::parse_keep_alive(mid, revision, old(decoder)@.bytes, old(decoder)@.cursor),
                Self::zoned(mid, revision) && Self::stops_payload(
                    mid,
                    revision,
                    old(decoder)@.bytes,
                    old(decoder)@.cursor,
                    final(decoder)@.cursor,
                ),
            ),
    {
        if mid == 9999 {
            if revision == 1 {
                match keep_alive::MID9999rev1::decode(decoder) {
                    Ok(payload) => Ok(Message::MID9999rev1(payload)),
                    Err(e) => Err(e),
                }
            } else {
                Err(decode::Error::NotImplemented)
            }
        } else {
            Err(decode::Error::NotImplemented)
        }
    }

    /// Whether the payload is legal: whether it can be written and read back.
    pub open spec fn legal_payload(&self) -> bool {
        match self {
            Message::MID9998rev1(payload) => payload.legal(),
            Message::MID9997rev1(payload) => payload.legal(),
            Message::MID0001rev1(payload) => payload.legal(),
            Message::MID0001rev7(payload) => payload.legal(),
            Message::MID0002rev1(payload) => payload.legal(),
            Message::MID0002rev2(payload) => payload.legal(),
            Message::MID0002rev3(payload) => payload.legal(),
            Message::MID0002rev4(payload) => payload.legal(),
            Message::MID0002rev5(payload) => payload.legal(),
            Message::MID0002rev6(payload) => payload.legal(),
            Message::MID0002rev7(payload) => payload.legal(),
            Message::MID0003rev1(payload) => payload.legal(),
            Message::MID0004rev1(payload) => payload.legal(),
            Message::MID0004rev2(payload) => payload.legal(),
            Message::MID0005rev1(payload) => payload.legal(),
            Message::MID0006rev1(payload) => payload.legal(),
            Message::MID0008rev1(payload) => payload.legal(),
            Message::MID0009rev1(payload) => payload.legal(),
            Message::MID0010rev1(payload) => payload.legal(),
            Message::MID0011rev1(payload) => payload.legal(),
            Message::MID0011rev2(payload) => payload.legal(),
            Message::MID0011rev3(payload) => payload.legal(),
            Message::MID0011rev4(payload) => payload.legal(),
            Message::MID0012rev1(payload) => payload.legal(),
            Message::MID0013rev1(payload) => payload.legal(),
            Message::MID0013rev2(payload) => payload.legal(),
            Message::MID0014rev1(payload) => payload.legal(),
            Message::MID0015rev1(payload) => payload.legal(),
            Message::MID0015rev2(payload) => payload.legal(),
            Message::MID0016rev1(payload) => payload.legal(),
            Message::MID0017rev1(payload) => payload.legal(),
            Message::MID0018rev1(payload) => payload.legal(),
            Message::MID0019rev1(payload) => payload.legal(),
            Message::MID0019rev2(payload) => payload.legal(),
            Message::MID0020rev1(payload) => payload.legal(),
            Message::MID0021rev1(payload) => payload.legal(),
            Message::MID0022rev1(payload) => payload.legal(),
            Message::MID2600rev1(payload) => payload.legal(),
            Message::MID2601rev1(payload) => payload.legal(),
            Message::MID2602rev1(payload) => payload.legal(),
            Message::MID2603rev1(payload) => payload.legal(),
            Message::MID2604rev1(payload) => payload.legal(),
            Message::MID2605rev1(payload) => payload.legal(),
            Message::MID2606rev1(payload) => payload.legal(),
            Message::MID0030rev1(payload) => payload.legal(),
            Message::MID0031rev1(payload) => payload.legal(),
            Message::MID0031rev2(payload) => payload.legal(),
            Message::MID0032rev1(payload) => payload.legal(),
            Message::MID0032rev2(payload) => payload.legal(),
            Message::MID0033rev1(payload) => payload.legal(),
            Message::MID0034rev1(payload) => payload.legal(),
            Message::MID0035rev1(payload) => payload.legal(),
            Message::MID0036rev1(payload) => payload.legal(),
            Message::MID0037rev1(payload) => payload.legal(),
            Message::MID0038rev1(payload) => payload.legal(),
            Message::MID0038rev2(payload) => payload.legal(),
            Message::MID0039rev1(payload) => payload.legal(),
            Message::MID0039rev2(payload) => payload.legal(),
            Message::MID0040rev6(payload) => payload.legal(),
            Message::MID0041rev1(payload) => payload.legal(),
            Message::MID0041rev2(payload) => payload.legal(),
            Message::MID0042rev2(payload) => payload.legal(),
            Message::MID0043rev2(payload) => payload.legal(),
            Message::MID0044rev1(payload) => payload.legal(),
            Message::MID0045rev1(payload) => payload.legal(),
            Message::MID0045rev2(payload) => payload.legal(),
            Message::MID0046rev1(payload) => payload.legal(),
            Message::MID0047rev1(payload) => payload.legal(),
            Message::MID0048rev1(payload) => payload.legal(),
            Message::MID0050rev1(payload) => payload.legal(),
            Message::MID0051rev1(payload) => payload.legal(),
            Message::MID0052rev1(payload) => payload.legal(),
            Message::MID0052rev2(payload) => payload.legal(),
            Message::MID0053rev1(payload) => payload.legal(),
            Message::MID0054rev1(payload) => payload.legal(),
            Message::MID0054rev2(payload) => payload.legal(),
            Message::MID0060rev1(payload) => payload.legal(),
            Message::MID0061rev1(payload) => payload.legal(),
            Message::MID0061rev2(payload) => payload.legal(),
            Message::MID0061rev3(payload) => payload.legal(),
            Message::MID0062rev1(payload) => payload.legal(),
            Message::MID0063rev1(payload) => payload.legal(),
            Message::MID0064rev1(payload) => payload.legal(),
            Message::MID0065rev1(payload) => payload.legal(),
            Message::MID0066rev1(payload) => payload.legal(),
            Message::MID0066rev2(payload) => payload.legal(),
            Message::MID0067rev1(payload) => payload.legal(),
            Message::MID0900rev1(payload) => payload.legal(),
            Message::MID0900rev2(payload) => payload.legal(),
            Message::MID0900rev3(payload) => payload.legal(),
            Message::MID0901rev1(payload) => payload.legal(),
            Message::MID0901rev2(payload) => payload.legal(),
            Message::MID0901rev3(payload) => payload.legal(),
            Message::MID0902rev1(payload) => payload.legal(),
            Message::MID1201rev1(payload) => payload.legal(),
            Message::MID1201rev2(payload) => payload.legal(),
            Message::MID1201rev3(payload) => payload.legal(),
            Message::MID1202rev1(payload) => payload.legal(),
            Message::MID1202rev2(payload) => payload.legal(),
            Message::MID1203rev1(payload) => payload.legal(),
            Message::MID0070rev1(payload) => payload.legal(),
            Message::MID0071rev1(payload) => payload.legal(),
            Message::MID0072rev1(payload) => payload.legal(),
            Message::MID0073rev1(payload) => payload.legal(),
            Message::MID0074rev1(payload) => payload.legal(),
            Message::MID0075rev1(payload) => payload.legal(),
            Message::MID0076rev1(payload) => payload.legal(),
            Message::MID0077rev1(payload) => payload.legal(),
            Message::MID0078rev1(payload) => payload.legal(),
            Message::MID1000rev1(payload) => payload.legal(),
            Message::MID1001rev1(payload) => payload.legal(),
            Message::MID0080rev1(payload) => payload.legal(),
            Message::MID0081rev1(payload) => payload.legal(),
            Message::MID0082rev1(payload) => payload.legal(),
            Message::MID0090rev1(payload) => payload.legal(),
            Message::MID0091rev1(payload) => payload.legal(),
            Message::MID0092rev1(payload) => payload.legal(),
            Message::MID0093rev1(payload) => payload.legal(),
            Message::MID0100rev1(payload) => payload.legal(),
            Message::MID0101rev1(payload) => payload.legal(),
            Message::MID0102rev1(payload) => payload.legal(),
            Message::MID0103rev1(payload) => payload.legal(),
            Message::MID0104rev1(payload) => payload.legal(),
            Message::MID0105rev1(payload) => payload.legal(),
            Message::MID0106rev1(payload) => payload.legal(),
            Message::MID0107rev1(payload) => payload.legal(),
            Message::MID0108rev1(payload) => payload.legal(),
            Message::MID0109rev1(payload) => payload.legal(),
            Message::MID0110rev1(payload) => payload.legal(),
            Message::MID0111rev1(payload) => payload.legal(),
            Message::MID0113rev1(payload) => payload.legal(),
            Message::MID9999rev1(payload) => payload.legal(),
        }
    }

    /// Whether the bytes `tail` may follow the payload without being taken
    /// for a part of it.
    pub open spec fn payload_clear_of(&self, tail: Seq<u8>) -> bool {
        match self {
            Message::MID0001rev1(payload) => payload.clear_of(tail),
            Message::MID0001rev7(payload) => payload.clear_of(tail),
            Message::MID0002rev7(payload) => payload.clear_of(tail),
            _ => true,
        }
    }

    /// The bytes written for the legal payload of a registered message, read
    /// under the message id and revision of that message, yield the payload
    /// and are consumed exactly.
    pub proof fn lemma_payload_read_back(&self, bytes: Seq<u8>, pos: int)
        requires
            self.legal_payload(),
            holds(bytes, pos, self.wire_payload().bytes),
            self.payload_clear_of(bytes.skip(pos + self.wire_payload().bytes.len())),
        ensures
            self.wire_payload().is_ok(),
            Self::registered(self.ident().0, self.ident().1),
            Self::parse_payload(self.ident().0, self.ident().1, bytes, pos) == parsed(
                self.deep_view(),
                pos + self.wire_payload().bytes.len(),
            ),
    {
        match self {
            Message::MID9998rev1(payload) => {
                payload.lemma_read_back(bytes, pos);
            },
            Message::MID9997rev1(payload) => {
                payload.lemma_read_back(bytes, pos);
            },
            Message::MID0001rev1(payload) => {
                payload.lemma_read_back(bytes, pos);
            },
            Message::MID0001rev7(payload) => {
                payload.lemma_read_back(bytes, pos);
            },
            Message::MID0002rev1(payload) => {
                payload.lemma_read_back(bytes, pos);
            },
            Message::MID0002rev2(payload) => {
                payload.lemma_read_back(bytes, pos);
            },
            Message::MID0002rev3(payload) => {
                payload.lemma_read_back(bytes, pos);
            },
            Message::MID0002rev4(payload) => {
                payload.lemma_read_back(bytes, pos);
            },
            Message::MID0002rev5(payload) => {
                payload.lemma_read_back(bytes, pos);
            },
            Message::MID0002rev6(payload) => {
                payload.lemma_read_back(bytes, pos);
            },
            Message::MID0002rev7(payload) => {
                payload.lemma_read_back(bytes, pos);
            },
            Message::MID0003rev1(payload) => {
                payload.lemma_read_back(bytes, pos);
            },
            Message::MID0004rev1(payload) => {
                payload.lemma_read_back(bytes, pos);
            },
            Message::MID0004rev2(payload) => {
                payload.lemma_read_back(bytes, pos);
            },
            Message::MID0005rev1(payload) => {
                payload.lemma_read_back(bytes, pos);
            },
            Message::MID0006rev1(payload) => {
                payload.lemma_read_back(bytes, pos);
            },
            Message::MID0008rev1(payload) => {
                payload.lemma_read_back(bytes, pos);
            },
            Message::MID0009rev1(payload) => {
                payload.lemma_read_back(bytes, pos);
            },
            Message::MID0010rev1(payload) => {
                payload.lemma_read_back(bytes, pos);
            },
            Message::MID0011rev1(payload) => {
                payload.lemma_read_back(bytes, pos);
            },
            Message::MID0011rev2(payload) => {
                payload.lemma_read_back(bytes, pos);
            },
            Message::MID0011rev3(payload) => {
                payload.lemma_read_back(bytes, pos);
            },
            Message::MID0011rev4(payload) => {
                payload.lemma_read_back(bytes, pos);
            },
            Message::MID0012rev1(payload) => {
                payload.lemma_read_back(bytes, pos);
            },
            Message::MID0013rev1(payload) => {
                payload.lemma_read_back(bytes, pos);
            },
            Message::MID0013rev2(payload) => {
                payload.lemma_read_back(bytes, pos);
            },
            Message::MID0014rev1(payload) => {
                payload.lemma_read_back(bytes, pos);
            },
            Message::MID0015rev1(payload) => {
                payload.lemma_read_back(bytes, pos);
            },
            Message::MID0015rev2(payload) => {
                payload.lemma_read_back(bytes, pos);
            },
            Message::MID0016rev1(payload) => {
                payload.lemma_read_back(bytes, pos);
            },
            Message::MID0017rev1(payload) => {
                payload.lemma_read_back(bytes, pos);
            },
            Message::MID0018rev1(payload) => {
                payload.lemma_read_back(bytes, pos);
            },
            Message::MID0019rev1(payload) => {
                payload.lemma_read_back(bytes, pos);
            },
            Message::MID0019rev2(payload) => {
                payload.lemma_read_back(bytes, pos);
            },
            Message::MID0020rev1(payload) => {
                payload.lemma_read_back(bytes, pos);
            },
            Message::MID0021rev1(payload) => {
                payload.lemma_read_back(bytes, pos);
            },
            Message::MID0022rev1(payload) => {
                payload.lemma_read_back(bytes, pos);
            },
            Message::MID2600rev1(payload) => {
                payload.lemma_read_back(bytes, pos);
            },
            Message::MID2601rev1(payload) => {
                payload.lemma_read_back(bytes, pos);
            },
            Message::MID2602rev1(payload) => {
                payload.lemma_read_back(bytes, pos);
            },
            Message::MID2603rev1(payload) => {
                payload.lemma_read_back(bytes, pos);
            },
            Message::MID2604rev1(payload) => {
                payload.lemma_read_back(bytes, pos);
            },
            Message::MID2605rev1(payload) => {
                payload.lemma_read_back(bytes, pos);
            },
            Message::MID2606rev1(payload) => {
                payload.lemma_read_back(bytes, pos);
            },
            Message::MID0030rev1(payload) => {
                payload.lemma_read_back(bytes, pos);
            },
            Message::MID0031rev1(payload) => {
                payload.lemma_read_back(bytes, pos);
            },
            Message::MID0031rev2(payload) => {
                payload.lemma_read_back(bytes, pos);
            },
            Message::MID0032rev1(payload) => {
                payload.lemma_read_back(bytes, pos);
            },
            Message::MID0032rev2(payload) => {
                payload.lemma_read_back(bytes, pos);
            },
            Message::MID0033rev1(payload) => {
                payload.lemma_read_back(bytes, pos);
            },
            Message::MID0034rev1(payload) => {
                payload.lemma_read_back(bytes, pos);
            },
            Message::MID0035rev1(payload) => {
                payload.lemma_read_back(bytes, pos);
            },
            Message::MID0036rev1(payload) => {
                payload.lemma_read_back(bytes, pos);
            },
            Message::MID0037rev1(payload) => {
                payload.lemma_read_back(bytes, pos);
            },
            Message::MID0038rev1(payload) => {
                payload.lemma_read_back(bytes, pos);
            },
            Message::MID0038rev2(payload) => {
                payload.lemma_read_back(bytes, pos);
            },
            Message::MID0039rev1(payload) => {
                payload.lemma_read_back(bytes, pos);
            },
            Message::MID0039rev2(payload) => {
                payload.lemma_read_back(bytes, pos);
            },
            Message::MID0040rev6(payload) => {
                payload.lemma_read_back(bytes, pos);
            },
            Message::MID0041rev1(payload) => {
                payload.lemma_read_back(bytes, pos);
            },
            Message::MID0041rev2(payload) => {
                payload.lemma_read_back(bytes, pos);
            },
            Message::MID0042rev2(payload) => {
                payload.lemma_read_back(bytes, pos);
            },
            Message::MID0043rev2(payload) => {
                payload.lemma_read_back(bytes, pos);
            },
            Message::MID0044rev1(payload) => {
                payload.lemma_read_back(bytes, pos);
            },
            Message::MID0045rev1(payload) => {
                payload.lemma_read_back(bytes, pos);
            },
            Message::MID0045rev2(payload) => {
                payload.lemma_read_back(bytes, pos);
            },
            Message::MID0046rev1(payload) => {
                payload.lemma_read_back(bytes, pos);
            },
            Message::MID0047rev1(payload) => {
                payload.lemma_read_back(bytes, pos);
            },
            Message::MID0048rev1(payload) => {
                payload.lemma_read_back(bytes, pos);
            },
            Message::MID0050rev1(payload) => {
                payload.lemma_read_back(bytes, pos);
            },
            Message::MID0051rev1(payload) => {
                payload.lemma_read_back(bytes, pos);
            },
            Message::MID0052rev1(payload) => {
                payload.lemma_read_back(bytes, pos);
            },
            Message::MID0052rev2(payload) => {
                payload.lemma_read_back(bytes, pos);
            },
            Message::MID0053rev1(payload) => {
                payload.lemma_read_back(bytes, pos);
            },
            Message::MID0054rev1(payload) => {
                payload.lemma_read_back(bytes, pos);
            },
            Message::MID0054rev2(payload) => {
                payload.lemma_read_back(bytes, pos);
            },
            Message::MID0060rev1(payload) => {
                payload.lemma_read_back(bytes, pos);
            },
            Message::MID0061rev1(payload) => {
                payload.lemma_read_back(bytes, pos);
            },
            Message::MID0061rev2(payload) => {
                payload.lemma_read_back(bytes, pos);
            },
            Message::MID0061rev3(payload) => {
                payload.lemma_read_back(bytes, pos);
            },
            Message::MID0062rev1(payload) => {
                payload.lemma_read_back(bytes, pos);
            },
            Message::MID0063rev1(payload) => {
                payload.lemma_read_back(bytes, pos);
            },
            Message::MID0064rev1(payload) => {
                payload.lemma_read_back(bytes, pos);
            },
            Message::MID0065rev1(payload) => {
                payload.lemma_read_back(bytes, pos);
            },
            Message::MID0066rev1(payload) => {
                payload.lemma_read_back(bytes, pos);
            },
            Message::MID0066rev2(payload) => {
                payload.lemma_read_back(bytes, pos);
            },
            Message::MID0067rev1(payload) => {
                payload.lemma_read_back(bytes, pos);
            },
            Message::MID0900rev1(payload) => {
                payload.lemma_read_back(bytes, pos);
            },
            Message::MID0900rev2(payload) => {
                payload.lemma_read_back(bytes, pos);
            },
            Message::MID0900rev3(payload) => {
                payload.lemma_read_back(bytes, pos);
            },
            Message::MID0901rev1(payload) => {
                payload.lemma_read_back(bytes, pos);
            },
            Message::MID0901rev2(payload) => {
                payload.lemma_read_back(bytes, pos);
            },
            Message::MID0901rev3(payload) => {
                payload.lemma_read_back(bytes, pos);
            },
            Message::MID0902rev1(payload) => {
                payload.lemma_read_back(bytes, pos);
            },
            Message::MID1201rev1(payload) => {
                payload.lemma_read_back(bytes, pos);
            },
            Message::MID1201rev2(payload) => {
                payload.lemma_read_back(bytes, pos);
            },
            Message::MID1201rev3(payload) => {
                payload.lemma_read_back(bytes, pos);
            },
            Message::MID1202rev1(payload) => {
                payload.lemma_read_back(bytes, pos);
            },
            Message::MID1202rev2(payload) => {
                payload.lemma_read_back(bytes, pos);
            },
            Message::MID1203rev1(payload) => {
                payload.lemma_read_back(bytes, pos);
            },
            Message::MID0070rev1(payload) => {
                payload.lemma_read_back(bytes, pos);
            },
            Message::MID0071rev1(payload) => {
                payload.lemma_read_back(bytes, pos);
            },
            Message::MID0072rev1(payload) => {
                payload.lemma_read_back(bytes, pos);
            },
            Message::MID0073rev1(payload) => {
                payload.lemma_read_back(bytes, pos);
            },
            Message::MID0074rev1(payload) => {
                payload.lemma_read_back(bytes, pos);
            },
            Message::MID0075rev1(payload) => {
                payload.lemma_read_back(bytes, pos);
            },
            Message::MID0076rev1(payload) => {
                payload.lemma_read_back(bytes, pos);
            },
            Message::MID0077rev1(payload) => {
                payload.lemma_read_back(bytes, pos);
            },
            Message::MID0078rev1(payload) => {
                payload.lemma_read_back(bytes, pos);
            },
            Message::MID1000rev1(payload) => {
                payload.lemma_read_back(bytes, pos);
            },
            Message::MID1001rev1(payload) => {
                payload.lemma_read_back(bytes, pos);
            },
            Message::MID0080rev1(payload) => {
                payload.lemma_read_back(bytes, pos);
            },
            Message::MID0081rev1(payload) => {
                payload.lemma_read_back(bytes, pos);
            },
            Message::MID0082rev1(payload) => {
                payload.lemma_read_back(bytes, pos);
            },
            Message::MID0090rev1(payload) => {
                payload.lemma_read_back(bytes, pos);
            },
            Message::MID0091rev1(payload) => {
                payload.lemma_read_back(bytes, pos);
            },
            Message::MID0092rev1(payload) => {
                payload.lemma_read_back(bytes, pos);
            },
            Message::MID0093rev1(payload) => {
                payload.lemma_read_back(bytes, pos);
            },
            Message::MID0100rev1(payload) => {
                payload.lemma_read_back(bytes, pos);
            },
            Message::MID0101rev1(payload) => {
                payload.lemma_read_back(bytes, pos);
            },
            Message::MID0102rev1(payload) => {
                payload.lemma_read_back(bytes, pos);
            },
            Message::MID0103rev1(payload) => {
                payload.lemma_read_back(bytes, pos);
            },
            Message::MID0104rev1(payload) => {
                payload.lemma_read_back(bytes, pos);
            },
            Message::MID0105rev1(payload) => {
                payload.lemma_read_back(bytes, pos);
            },
            Message::MID0106rev1(payload) => {
                payload.lemma_read_back(bytes, pos);
            },
            Message::MID0107rev1(payload) => {
                payload.lemma_read_back(bytes, pos);
            },
            Message::MID0108rev1(payload) => {
                payload.lemma_read_back(bytes, pos);
            },
            Message::MID0109rev1(payload) => {
                payload.lemma_read_back(bytes, pos);
            },
            Message::MID0110rev1(payload) => {
                payload.lemma_read_back(bytes, pos);
            },
            Message::MID0111rev1(payload) => {
                payload.lemma_read_back(bytes, pos);
            },
            Message::MID0113rev1(payload) => {
                payload.lemma_read_back(bytes, pos);
            },
            Message::MID9999rev1(payload) => {
                payload.lemma_read_back(bytes, pos);
            },
        }
    }

    /// A NUL may follow any payload: it announces no field.
    pub proof fn lemma_clear_of_nul(&self, tail: Seq<u8>)
        requires
            tail.len() > 0,
            tail[0] == 0,
        ensures
            self.payload_clear_of(tail),
    {
        reveal_with_fuel(crate::digits::digit_run, 2);
    }
}

/// The NUL that ends every frame.
pub const NUL: u8 = 0;

/// The largest payload that a frame can announce: the length field has four
/// digits and counts the header.
pub const MAX_PAYLOAD_LEN: usize = 9979;

impl Message {
    /// Reading a frame at `pos`: the header, the payload that is registered
    /// under the header's message id and revision, and the NUL.
    ///
    /// The frame must be there in full before its payload is read, the
    /// payload is followed by a NUL, and the header and the payload together
    /// must be as long as the header says.
    pub open spec fn parse_message(bytes: Seq<u8>, pos: int) -> Parsed<(Header, MessageView)> {
        let header = Header::parse(bytes, pos);
        let payload = Self::parse_payload(
            got(header).mid,
            got(header).revision_of(),
            bytes,
            end_of(header),
        );
        let nul = parse_expected(bytes, end_of(payload), '\0');
        if header is Err {
            failure(header)
        } else if bytes.len() - pos < got(header).length {
            Err(
                (
                    ErrorView::InsufficientBytes {
                        have: clamp(bytes.len() - pos),
                        need: got(header).length as usize,
                    },
                    end_of(header),
                ),
            )
        } else if payload is Err {
            failure(payload)
        } else if nul is Err {
            failure(nul)
        } else if end_of(nul) - pos != got(header).length + 1 {
            Err(
                (
                    ErrorView::SizeMismatch {
                        requested_size: got(header).length as usize,
                        type_label: "Message"@,
                    },
                    end_of(nul),
                ),
            )
        } else {
            Ok(((got(header), got(payload)), end_of(nul)))
        }
    }

    /// Whether reading the frame at `pos` reads a timestamp that ends at
    /// `at`: the header must parse, the frame must be there in full, and the
    /// payload that the header names must hold the timestamp.
    pub open spec fn stops_frame(bytes: Seq<u8>, pos: int, at: int) -> bool {
        &&& Header::parse(bytes, pos) matches Ok((header, end))
        &&& bytes.len() - pos >= header.length
        &&& Self::zoned(header.mid, header.revision_of())
        &&& Self::stops_payload(header.mid, header.revision_of(), bytes, end, at)
    }

    /// Whether reading the frame at `pos` reads a timestamp: whether the host
    /// is asked about a time.
    pub open spec fn asks_frame(bytes: Seq<u8>, pos: int) -> bool {
        exists|at: int| Self::stops_frame(bytes, pos, at)
    }

    /// Reads a frame: header, payload and NUL.
    pub fn decode_message(decoder: &mut Decoder) -> (r: decode::Result<(Header, Self)>)
        ensures
            decodes(
                old(decoder)@,
                final(decoder)@,
                r,
                Self::parse_message(old(decoder)@.bytes, old(decoder)@.cursor),
                Self::stops_frame(
                    old(decoder)@.bytes,
                    old(decoder)@.cursor,
                    final(decoder)@.cursor,
                ),
            ),
    {
        let start = decoder.pos();
        let header = Header::decode(decoder)?;
        let available = decoder.len() - start;
        let announced = header.length as usize;
        if announced > available {
            return Err(decode::Error::InsufficientBytes { have: available, need: announced });
        }
        let payload = Self::decode_payload(header.mid, header.revision_number(), decoder)?;
        decoder.expect_char('\0')?;
        let end = decoder.pos();
        if end < start || end - start != announced + 1 {
            return Err(
                decode::Error::SizeMismatch {
                    requested_size: announced,
                    type_label: String::from_str("Message"),
                },
            );
        }
        Ok((header, payload))
    }

    /// The header of the frame of this message with a payload of
    /// `payload_len` bytes. The length counts the header and the payload, the
    /// message id is the message's, and the other fields are those of
    /// `overrides`, but for the revision: it is the message's, and it is left
    /// blank where the message has revision one and `overrides` names none.
    pub open spec fn frame_header(&self, overrides: Header, payload_len: int) -> Header {
        Header {
            length: (payload_len + HEADER_LEN) as u16,
            mid: self.ident().0,
            revision: if self.ident().1 != 1 || overrides.revision is Some {
                Some(self.ident().1)
            } else {
                None
            },
            no_ack_flag: overrides.no_ack_flag,
            station_id: overrides.station_id,
            spindle_id: overrides.spindle_id,
            sequence_number: overrides.sequence_number,
            message_parts: overrides.message_parts,
            message_part_number: overrides.message_part_number,
        }
    }

    /// The frame of this message: the header, the payload and the NUL. A
    /// payload that cannot be written, one that is too long for the length
    /// field, and a header that cannot be written each fail with their
    /// error.
    pub open spec fn frame(&self, overrides: Header) -> core::result::Result<
        Seq<u8>,
        encode::Error,
    > {
        let payload = self.wire_payload();
        let header = self.frame_header(overrides, payload.bytes.len() as int).wire();
        if payload.error is Some {
            Err(payload.error->Some_0)
        } else if payload.bytes.len() > MAX_PAYLOAD_LEN {
            Err(encode::Error::InvalidSize(4))
        } else if header.error is Some {
            Err(header.error->Some_0)
        } else {
            Ok(header.bytes + payload.bytes + seq![NUL])
        }
    }

    /// Encodes this message as a frame.
    pub fn encode_message(&self, overrides: &Header) -> (r: encode::Result<Vec<u8>>)
        ensures
            match self.frame(*overrides) {
                Ok(frame) => r matches Ok(bytes) && bytes@ == frame,
                Err(e) => r == Err::<Vec<u8>, encode::Error>(e),
            },
    {
        let mut scratch = Encoder::new();
        self.encode_payload(&mut scratch)?;
        let payload_len = scratch.len();
        if payload_len > MAX_PAYLOAD_LEN {
            return Err(encode::Error::InvalidSize(4));
        }
        let (mid, revision) = self.mid_revision();
        let header = Header {
            length: (payload_len + HEADER_LEN) as u16,
            mid,
            revision: if revision != 1 || overrides.revision.is_some() {
                Some(revision)
            } else {
                None
            },
            no_ack_flag: overrides.no_ack_flag,
            station_id: overrides.station_id,
            spindle_id: overrides.spindle_id,
            sequence_number: overrides.sequence_number,
            message_parts: overrides.message_parts,
            message_part_number: overrides.message_part_number,
        };
        let mut frame = Encoder::new();
        header.encode(&mut frame)?;
        frame.append(scratch.as_slice());
        let _ = frame.write_byte(&NUL);
        let bytes = vstd::slice::slice_to_vec(frame.as_slice());
        proof {
            assert(scratch@ =~= self.wire_payload().bytes);
            assert(bytes@ =~= header.wire().bytes + self.wire_payload().bytes + seq![NUL]);
        }
        Ok(bytes)
    }

    /// The frame written for a legal message is read back as the message,
    /// under a header that tells the length of header and payload, the
    /// message id and the revision of the message.
    pub proof fn lemma_frame_read_back(&self, overrides: Header, bytes: Seq<u8>, pos: int)
        requires
            self.legal_payload(),
            self.frame(overrides) is Ok,
            self.frame_header(overrides, self.wire_payload().bytes.len() as int).legal(),
            holds(bytes, pos, self.frame(overrides)->Ok_0),
        ensures
            ({
                let header = self.frame_header(overrides, self.wire_payload().bytes.len() as int);
                &&& Self::parse_message(bytes, pos) == parsed(
                    (header, self.deep_view()),
                    pos + self.frame(overrides)->Ok_0.len(),
                )
                &&& header.length == HEADER_LEN + self.wire_payload().bytes.len()
                &&& header.mid == self.ident().0
                &&& header.revision_of() == self.ident().1
                &&& self.frame(overrides)->Ok_0.len() == header.length + 1
            }),
    {
        let payload = self.wire_payload();
        let header = self.frame_header(overrides, payload.bytes.len() as int);
        let frame = self.frame(overrides)->Ok_0;
        lemma_header_width(header);
        let head = Written::done(header.wire().bytes);
        let body = Written::done(payload.bytes);
        let tail = Written::done(seq![NUL]);
        assert(head.followed_by(body).followed_by(tail) == Written::done(frame)) by {
            reveal(Written::followed_by);
        }
        lemma_split(bytes, pos, head.followed_by(body), tail);
        lemma_split(bytes, pos, head, body);
        assert(head.followed_by(body).bytes.len() == HEADER_LEN + payload.bytes.len());
        header.lemma_read_back(bytes, pos);
        let after = bytes.skip(pos + HEADER_LEN + payload.bytes.len());
        assert(after.len() > 0 && after[0] == NUL) by {
            reveal(holds);
            assert(bytes.subrange(
                pos + HEADER_LEN + payload.bytes.len(),
                pos + HEADER_LEN + payload.bytes.len() + 1,
            )[0] == seq![NUL][0]);
        }
        self.lemma_clear_of_nul(after);
        self.lemma_ident_registered();
        self.lemma_payload_read_back(bytes, pos + HEADER_LEN);
        crate::scalars::lemma_char_read_back(
            '\0',
            bytes,
            pos + HEADER_LEN + payload.bytes.len(),
        );
        crate::faithful::lemma_holds_within(bytes, pos, frame);
    }

    /// Every message is registered under a revision of at least one.
    pub proof fn lemma_ident_registered(&self)
        ensures
            Self::registered(self.ident().0, self.ident().1),
            self.ident().1 >= 1,
            self.ident().0 <= 9999,
    {
    }

    /// Every frame that is read is as long as its header says, header and
    /// payload together, and is followed by one NUL, which is the last byte
    /// that is taken.
    pub proof fn lemma_frame_shape(bytes: Seq<u8>, pos: int)
        requires
            0 <= pos,
            Self::parse_message(bytes, pos) is Ok,
        ensures
            ({
                let header = Self::parse_message(bytes, pos)->Ok_0.0.0;
                let end = Self::parse_message(bytes, pos)->Ok_0.1;
                let payload = Self::parse_payload(
                    header.mid,
                    header.revision_of(),
                    bytes,
                    pos + HEADER_LEN,
                );
                &&& Header::parse(bytes, pos) == parsed(header, pos + HEADER_LEN)
                &&& payload is Ok
                &&& end_of(payload) - (pos + HEADER_LEN) == header.length - HEADER_LEN
                &&& end == pos + header.length + 1
                &&& end <= bytes.len()
                &&& bytes[end - 1] == NUL
            }),
    {
        crate::header::lemma_header_read_width(bytes, pos);
    }
}

} // verus!
