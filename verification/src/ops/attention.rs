//! Attention over a whole prompt.

use vstd::prelude::*;
use vstd::utf8::encode_utf8;

use crate::error::{ArgumentError, AscendError};
use crate::launch::{AttentionArgs, Launch, Operator};
use crate::stream::Stream;
use crate::tensor::AclTensor;
use crate::text::{c_string, is_c_string};

verus! {

/// The bits of `1.0`, the probability of keeping an element where nothing is
/// dropped.
pub const KEEP_ALL: u64 = 0x3ff0_0000_0000_0000;

/// `args` asks for attention of `query` to `key` and `value` without dropout,
/// shift, padding or prefix, each token seeing itself and up to `seq_len`
/// tokens before it, none after it, as far as `atten_mask` lets it. A null
/// mask leaves the causal order to the operator.
pub open spec fn asks_for_attention(
    args: AttentionArgs,
    query: usize,
    key: usize,
    value: usize,
    atten_mask: usize,
    scale: u64,
    head_num: i64,
    input_layout: Seq<char>,
    seq_len: i64,
    softmax_max: usize,
    softmax_sum: usize,
    attention_out: usize,
) -> bool {
    &&& args.query == query
    &&& args.key == key
    &&& args.value == value
    &&& args.real_shift == 0
    &&& args.drop_mask == 0
    &&& args.padding_mask == 0
    &&& args.atten_mask == atten_mask
    &&& args.prefix == 0
    &&& args.scale == scale
    &&& args.keep_prob == KEEP_ALL
    &&& args.pre_tokens == seq_len
    &&& args.next_tokens == 0
    &&& args.head_num == head_num
    &&& is_c_string(args.input_layout@, input_layout)
    &&& args.inner_precise == 0
    &&& args.sparse_mode == 0
    &&& args.softmax_max == softmax_max
    &&& args.softmax_sum == softmax_sum
    &&& args.softmax_out == 0
    &&& args.attention_out == attention_out
}

/// The launch of attention under `atten_mask`, or the refusal of a layout that
/// has no C string.
fn prefill(
    stream: &Stream,
    query: &AclTensor,
    key: &AclTensor,
    value: &AclTensor,
    atten_mask: usize,
    scale: u64,
    head_num: i64,
    input_layout: &str,
    seq_len: i64,
    softmax_max: &AclTensor,
    softmax_sum: &AclTensor,
    attention_out: &AclTensor,
) -> (launch: Result<Launch, AscendError>)
    ensures
        launch is Ok <==> !input_layout@.contains('\0'),
        launch matches Err(e) ==> e == AscendError::InvalidArgument(ArgumentError::InputLayout),
        launch matches Ok(l) ==> {
            &&& l.wf()
            &&& l == Launch::initial(l.operator, stream.handle())
            &&& l.operator matches Operator::FlashAttentionScore(args) && asks_for_attention(
                args,
                query.handle(),
                key.handle(),
                value.handle(),
                atten_mask,
                scale,
                head_num,
                input_layout@,
                seq_len,
                softmax_max.handle(),
                softmax_sum.handle(),
                attention_out.handle(),
            )
        },
{
    match c_string(input_layout) {
        None => Err(AscendError::InvalidArgument(ArgumentError::InputLayout)),
        Some(layout) => {
            let args = AttentionArgs {
                query: query.raw(),
                key: key.raw(),
                value: value.raw(),
                real_shift: 0,
                drop_mask: 0,
                padding_mask: 0,
                atten_mask,
                prefix: 0,
                scale,
                keep_prob: KEEP_ALL,
                pre_tokens: seq_len,
                next_tokens: 0,
                head_num,
                input_layout: layout,
                inner_precise: 0,
                sparse_mode: 0,
                softmax_max: softmax_max.raw(),
                softmax_sum: softmax_sum.raw(),
                softmax_out: 0,
                attention_out: attention_out.raw(),
            };
            Ok(Launch::new(Operator::FlashAttentionScore(args), stream.raw()))
        },
    }
}

/// Attention over a whole prompt, the operator applying the causal order.
///
/// - `stream`: execution stream
/// - `query`, `key`, `value`: tensors in the layout `input_layout`
/// - `scale`: the bits of one over the square root of the head size
/// - `head_num`: number of query heads, which may exceed that of the keys
/// - `input_layout`: `"BSH"` or `"BNSD"`
/// - `seq_len`: how many tokens back a token sees
/// - `softmax_max`, `softmax_sum`: auxiliary outputs
/// - `attention_out`: the result, in the layout of `query`
///
/// A layout that holds a NUL character is refused before any call is made.
pub fn flash_attention_score(
    stream: &Stream,
    query: &AclTensor,
    key: &AclTensor,
    value: &AclTensor,
    scale: u64,
    head_num: i64,
    input_layout: &str,
    seq_len: i64,
    softmax_max: &AclTensor,
    softmax_sum: &AclTensor,
    attention_out: &mut AclTensor,
) -> (launch: Result<Launch, AscendError>)
    ensures
        *final(attention_out) == *old(attention_out),
        launch is Ok <==> !input_layout@.contains('\0'),
        launch matches Err(e) ==> e == AscendError::InvalidArgument(ArgumentError::InputLayout),
        launch matches Ok(l) ==> {
            &&& l.wf()
            &&& l == Launch::initial(l.operator, stream.handle())
            &&& l.operator matches Operator::FlashAttentionScore(args) && asks_for_attention(
                args,
                query.handle(),
                key.handle(),
                value.handle(),
                0,
                scale,
                head_num,
                input_layout@,
                seq_len,
                softmax_max.handle(),
                softmax_sum.handle(),
                old(attention_out).handle(),
            )
        },
{
    prefill(
        stream,
        query,
        key,
        value,
        0,
        scale,
        head_num,
        input_layout,
        seq_len,
        softmax_max,
        softmax_sum,
        attention_out,
    )
}

/// Attention over a whole prompt under an explicit mask, whose true elements
/// are not attended to.
///
/// The other arguments are those of [`flash_attention_score`].
pub fn flash_attention_score_with_mask(
    stream: &Stream,
    query: &AclTensor,
    key: &AclTensor,
    value: &AclTensor,
    atten_mask: &AclTensor,
    scale: u64,
    head_num: i64,
    input_layout: &str,
    seq_len: i64,
    softmax_max: &AclTensor,
    softmax_sum: &AclTensor,
    attention_out: &mut AclTensor,
) -> (launch: Result<Launch, AscendError>)
    ensures
        *final(attention_out) == *old(attention_out),
        launch is Ok <==> !input_layout@.contains('\0'),
        launch matches Err(e) ==> e == AscendError::InvalidArgument(ArgumentError::InputLayout),
        launch matches Ok(l) ==> {
            &&& l.wf()
            &&& l == Launch::initial(l.operator, stream.handle())
            &&& l.operator matches Operator::FlashAttentionScore(args) && asks_for_attention(
                args,
                query.handle(),
                key.handle(),
                value.handle(),
                atten_mask.handle(),
                scale,
                head_num,
                input_layout@,
                seq_len,
                softmax_max.handle(),
                softmax_sum.handle(),
                old(attention_out).handle(),
            ) && args.atten_mask != 0
        },
{
    prefill(
        stream,
        query,
        key,
        value,
        atten_mask.raw(),
        scale,
        head_num,
        input_layout,
        seq_len,
        softmax_max,
        softmax_sum,
        attention_out,
    )
}

/// The mask is all that sets the two apart: on the same other arguments they
/// ask the operator for the same.
pub proof fn mask_is_the_only_difference(
    plain: AttentionArgs,
    masked: AttentionArgs,
    query: usize,
    key: usize,
    value: usize,
    atten_mask: usize,
    scale: u64,
    head_num: i64,
    input_layout: Seq<char>,
    seq_len: i64,
    softmax_max: usize,
    softmax_sum: usize,
    attention_out: usize,
)
    requires
        asks_for_attention(
            plain,
            query,
            key,
            value,
            0,
            scale,
            head_num,
            input_layout,
            seq_len,
            softmax_max,
            softmax_sum,
            attention_out,
        ),
        asks_for_attention(
            masked,
            query,
            key,
            value,
            atten_mask,
            scale,
            head_num,
            input_layout,
            seq_len,
            softmax_max,
            softmax_sum,
            attention_out,
        ),
    ensures
        plain.input_layout@ == masked.input_layout@,
        masked == (AttentionArgs {
            atten_mask,
            input_layout: masked.input_layout,
            ..plain
        }),
{
}

/// The token at `position` may attend to the one at `other`, by the window of
/// the arguments.
pub open spec fn in_window(args: AttentionArgs, position: int, other: int) -> bool {
    position - args.pre_tokens <= other <= position + args.next_tokens
}

/// The window is the full causal one: every token of the prompt may attend to
/// all tokens up to itself, from the first on, however long the prompt, and to
/// none after it; with and without a mask.
pub proof fn window_is_full_and_causal(
    args: AttentionArgs,
    query: usize,
    key: usize,
    value: usize,
    atten_mask: usize,
    scale: u64,
    head_num: i64,
    input_layout: Seq<char>,
    seq_len: i64,
    softmax_max: usize,
    softmax_sum: usize,
    attention_out: usize,
)
    requires
        asks_for_attention(
            args,
            query,
            key,
            value,
            atten_mask,
            scale,
            head_num,
            input_layout,
            seq_len,
            softmax_max,
            softmax_sum,
            attention_out,
        ),
    ensures
        args.pre_tokens == seq_len,
        args.next_tokens == 0,
        forall|position: int, other: int|
            0 <= position < seq_len && 0 <= other < seq_len ==> (#[trigger] in_window(
                args,
                position,
                other,
            ) <==> other <= position),
{
}

/// What the caller gives reaches the operator: the tensors as themselves, the
/// scale and the number of heads unchanged, the layout as the C string of its
/// UTF-8 form.
pub proof fn arguments_reach_the_operator(
    args: AttentionArgs,
    query: usize,
    key: usize,
    value: usize,
    atten_mask: usize,
    scale: u64,
    head_num: i64,
    input_layout: Seq<char>,
    seq_len: i64,
    softmax_max: usize,
    softmax_sum: usize,
    attention_out: usize,
)
    requires
        asks_for_attention(
            args,
            query,
            key,
            value,
            atten_mask,
            scale,
            head_num,
            input_layout,
            seq_len,
            softmax_max,
            softmax_sum,
            attention_out,
        ),
    ensures
        args.query == query && args.key == key && args.value == value,
        args.atten_mask == atten_mask,
        args.scale == scale,
        args.head_num == head_num,
        args.input_layout@ == encode_utf8(input_layout).push(0u8),
        args.softmax_max == softmax_max && args.softmax_sum == softmax_sum,
        args.attention_out == attention_out,
{
}

/// Nothing else is asked of the operator: no shift, dropout, padding or prefix,
/// no softmax output, default precision, no sparse pattern. Every element is
/// kept: the probability is `1.0`, which as a 64-bit float has the biased
/// exponent 1023 above 52 bits of zero.
pub proof fn nothing_more_is_asked(
    args: AttentionArgs,
    query: usize,
    key: usize,
    value: usize,
    atten_mask: usize,
    scale: u64,
    head_num: i64,
    input_layout: Seq<char>,
    seq_len: i64,
    softmax_max: usize,
    softmax_sum: usize,
    attention_out: usize,
)
    requires
        asks_for_attention(
            args,
            query,
            key,
            value,
            atten_mask,
            scale,
            head_num,
            input_layout,
            seq_len,
            softmax_max,
            softmax_sum,
            attention_out,
        ),
    ensures
        args.real_shift == 0 && args.drop_mask == 0 && args.padding_mask == 0 && args.prefix == 0,
        args.softmax_out == 0,
        args.inner_precise == 0 && args.sparse_mode == 0,
        args.keep_prob >> 52 == 1023,
        args.keep_prob << 12 == 0,
{
    assert(0x3ff0_0000_0000_0000u64 >> 52 == 1023 && 0x3ff0_0000_0000_0000u64 << 12 == 0)
        by (bit_vector);
}

} // verus!
