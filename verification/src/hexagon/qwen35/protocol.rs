//! What the host and the resident module tell each other.
//!
//! A request is a sequence of words that the module reads from the start of the
//! request buffer; a reply is one that the host reads from the start of the
//! response buffer.

use vstd::prelude::*;

use crate::bytes::{
    as_signed, as_word, law_read_gives_what_was_written, law_words_are_read_back, le_u32,
    with_words,
};
use crate::hexagon::qwen35::export::{export_layout, law_layout_is_contiguous};
use crate::hexagon::qwen35::runtime::Qwen35Runtime;
use crate::hexagon::qwen35::session::{
    bind_request, bind_words, control_words, decode_words, initialize_runtime, prefill_words,
    reply_token, zeros, ComputeCall, Qwen35Session, Qwen35Token, SessionAction, SessionBuffer,
    SessionEventView, SessionProgressView, SessionStage, Store,
};
use crate::hexagon::qwen35::{
    MAX_DECODE_CONTEXT, MAX_PREFILL_TOKENS, QWEN_REQUEST_BYTES, QWEN_RUNTIME_BYTES,
    QWEN_RUNTIME_LAYOUT_VERSION, QWEN_RUNTIME_MAGIC,
};

verus! {

/// The word with this number in a buffer.
pub open spec fn word_of(buffer: Seq<u8>, k: int) -> u32 {
    le_u32(buffer, 4 * k)
}

proof fn lemma_prefill_words(buffer: Seq<u8>, prompt: Seq<i32>, k: int)
    requires
        prompt.len() <= MAX_PREFILL_TOKENS,
        32 + 4 * prompt.len() <= buffer.len(),
    ensures
        ({
            let request = with_words(buffer, prefill_words(prompt));
            &&& word_of(request, 0) == 297
            &&& word_of(request, 1) == QWEN_RUNTIME_LAYOUT_VERSION
            &&& word_of(request, 2) == QWEN_RUNTIME_BYTES
            &&& word_of(request, 3) == prompt.len()
            &&& word_of(request, 4) == 0
            &&& word_of(request, 5) == u32::MAX
            &&& word_of(request, 6) == 0
            &&& word_of(request, 7) == 0
            &&& 0 <= k < prompt.len() ==> as_signed(word_of(request, 8 + k)) == prompt[k]
            &&& 32 + 4 * prompt.len() <= k < buffer.len() ==> request[k] == buffer[k]
            &&& request.len() == buffer.len()
        }),
{
    let words = prefill_words(prompt);
    law_words_are_read_back(buffer, words, 0);
    law_words_are_read_back(buffer, words, 1);
    law_words_are_read_back(buffer, words, 2);
    law_words_are_read_back(buffer, words, 3);
    law_words_are_read_back(buffer, words, 4);
    law_words_are_read_back(buffer, words, 5);
    law_words_are_read_back(buffer, words, 6);
    law_words_are_read_back(buffer, words, 7);
    law_words_are_read_back(buffer, words, k);
    if 0 <= k < prompt.len() {
        law_words_are_read_back(buffer, words, 8 + k);
        assert(words[8 + k] == as_word(prompt[k]));
    }
}

proof fn lemma_decode_words(session: Qwen35Session, buffer: Seq<u8>)
    requires
        session.wf(),
        24 <= buffer.len(),
    ensures
        ({
            let request = with_words(
                buffer,
                decode_words(session.position, session.generated_count),
            );
            &&& word_of(request, 0) == 285
            &&& word_of(request, 1) == session.position
            &&& word_of(request, 2) == session.generated_count
            &&& word_of(request, 3) == 0
            &&& word_of(request, 4) == u32::MAX
            &&& word_of(request, 5) == 0
        }),
{
    let words = decode_words(session.position, session.generated_count);
    law_words_are_read_back(buffer, words, 0);
    law_words_are_read_back(buffer, words, 1);
    law_words_are_read_back(buffer, words, 2);
    law_words_are_read_back(buffer, words, 3);
    law_words_are_read_back(buffer, words, 4);
    law_words_are_read_back(buffer, words, 5);
}

/// The module reads the layout and the size of the runtime buffer out of a bind
/// request, which is sent whole, and the session is ready exactly where it answers
/// with that layout.
pub proof fn law_bind_agrees_on_the_layout(
    session: Qwen35Session,
    request: &mut Vec<u8>,
    response: &mut Vec<u8>,
    call: ComputeCall,
    reply: Seq<u8>,
    answer: u32,
)
    requires
        16 <= old(request)@.len(),
        4 <= reply.len(),
        call_ensures(bind_request, (request, response), call),
    ensures
        ({
            let sent = final(request)@;
            let answered = SessionEventView::Reply(with_words(reply, seq![answer]));
            let next = session.progress(SessionStage::Bind, answered);
            &&& call.method == 2
            &&& call.sent == sent.len()
            &&& word_of(sent, 0) == 284
            &&& word_of(sent, 1) == QWEN_RUNTIME_LAYOUT_VERSION
            &&& word_of(sent, 2) == QWEN_RUNTIME_BYTES
            &&& word_of(sent, 3) == 0
            &&& forall|k: int| 0 <= k < final(response)@.len() ==> final(response)@[k] == 0
            &&& next is Ready <==> answer == word_of(sent, 1)
            &&& !(next is Ready) ==> next is Failed
        }),
{
    let words = bind_words();
    assert(old(request)@.len() == old(request).len());
    law_words_are_read_back(old(request)@, words, 0);
    law_words_are_read_back(old(request)@, words, 1);
    law_words_are_read_back(old(request)@, words, 2);
    law_words_are_read_back(old(request)@, words, 3);
    law_words_are_read_back(reply, seq![answer], 0);
}

/// A new session's runtime buffer holds its control block and is zero behind it,
/// whatever it held before.
pub proof fn law_runtime_buffer_starts_blank(buffer: &mut Vec<u8>, r: (), k: int)
    requires
        32 <= old(buffer)@.len(),
        call_ensures(initialize_runtime, (buffer,), r),
    ensures
        final(buffer)@.len() == old(buffer)@.len(),
        32 <= k < final(buffer)@.len() ==> final(buffer)@[k] == 0,
        word_of(final(buffer)@, 0) == QWEN_RUNTIME_MAGIC,
        word_of(final(buffer)@, 1) == QWEN_RUNTIME_LAYOUT_VERSION,
        2 <= k < 7 ==> word_of(final(buffer)@, k) == 0,
        word_of(final(buffer)@, 7) == MAX_DECODE_CONTEXT,
{
    let zero = zeros(old(buffer)@.len());
    let words = control_words();
    law_words_are_read_back(zero, words, 0);
    law_words_are_read_back(zero, words, 1);
    law_words_are_read_back(zero, words, 7);
    law_words_are_read_back(zero, words, k);
}

proof fn lemma_prefill_reply(response: Seq<u8>, count: usize, words: Seq<u32>)
    requires
        words.len() == 6,
        24 <= response.len(),
        count <= MAX_PREFILL_TOKENS,
    ensures
        ({
            let reply = with_words(response, words);
            &&& Qwen35Session::prefill_fault(count as nat, reply) is None <==> words[2] == 0
                && words[3] == count && words[4] == count && words[5] == 0
            &&& reply_token(reply).id == words[0]
            &&& reply_token(reply).logit_bits == words[1]
        }),
{
    law_words_are_read_back(response, words, 0);
    law_words_are_read_back(response, words, 1);
    law_words_are_read_back(response, words, 2);
    law_words_are_read_back(response, words, 3);
    law_words_are_read_back(response, words, 4);
    law_words_are_read_back(response, words, 5);
}

proof fn lemma_decode_reply(
    session: Qwen35Session,
    request: Seq<u8>,
    response: Seq<u8>,
    words: Seq<u32>,
)
    requires
        session.wf(),
        words.len() == 5,
        24 <= request.len(),
        20 <= response.len(),
    ensures
        ({
            let sent = with_words(
                request,
                decode_words(session.position, session.generated_count),
            );
            let reply = with_words(response, words);
            &&& session.decode_fault(reply) is None <==> words[2] == word_of(sent, 2) && words[3]
                == word_of(sent, 1) && words[4] == 0
            &&& reply_token(reply).id == words[0]
            &&& reply_token(reply).logit_bits == words[1]
        }),
{
    lemma_decode_words(session, request);
    law_words_are_read_back(response, words, 0);
    law_words_are_read_back(response, words, 1);
    law_words_are_read_back(response, words, 2);
    law_words_are_read_back(response, words, 3);
    law_words_are_read_back(response, words, 4);
}

/// A bound session with its own request buffer takes every prompt of two to 256
/// tokens and no other; one that is not bound takes none.
pub proof fn law_prompts_of_all_lengths_fit(session: Qwen35Session, count: nat)
    ensures
        session.prefill_refusal(count, QWEN_REQUEST_BYTES as nat) is None <==> session.bound && 2
            <= count <= 256,
{
}

/// A token can be generated exactly where something is in the cache and there is
/// room for one more entry.
pub proof fn law_decoding_goes_on_while_there_is_room(session: Qwen35Session)
    ensures
        session.decode_refusal() is None <==> 0 < session.cache_len < MAX_DECODE_CONTEXT,
        session.decode_refusal() is None ==> session.decoded().cache_len == session.cache_len + 1,
        session.decode_refusal() is None && session.wf() ==> session.decoded().cache_len
            <= MAX_DECODE_CONTEXT,
{
}

/// The weights of an export are loaded from where they stand in the file: the two
/// ranges that are read into the base and the sidecar buffer have the sizes of the
/// buffers, do not overlap, follow the header and fill the rest of the file.
pub proof fn law_weights_are_loaded_from_their_place(
    session: Qwen35Session,
    base: SessionAction,
    sidecar: SessionAction,
)
    requires
        session.layout == export_layout(),
        call_ensures(Qwen35Session::stage_action, (&session, SessionStage::LoadBase), base),
        call_ensures(Qwen35Session::stage_action, (&session, SessionStage::LoadHmx), sidecar),
    ensures
        match (base, sidecar) {
            (
                SessionAction::Load { buffer: first, offset: start },
                SessionAction::Load { buffer: second, offset: middle },
            ) => {
                &&& first == SessionBuffer::Base
                &&& second == SessionBuffer::Hmx
                &&& start == session.layout.data_start
                &&& start + session.buffer_bytes(first) == middle
                &&& middle + session.buffer_bytes(second) == session.layout.file_bytes
            },
            _ => false,
        },
{
    law_layout_is_contiguous();
}

/// Every buffer is allocated with the size under which it is used, and the buffers
/// of the weights have the sizes of the export's two parts.
pub proof fn law_buffers_have_their_sizes(
    session: Qwen35Session,
    buffer: SessionBuffer,
    action: SessionAction,
)
    requires
        call_ensures(
            Qwen35Session::stage_action,
            (&session, SessionStage::Allocate(buffer)),
            action,
        ),
    ensures
        action matches SessionAction::Allocate { buffer: allocated, bytes } && allocated == buffer
            && bytes == session.buffer_bytes(buffer),
        session.buffer_bytes(SessionBuffer::Base) == session.layout.base_bytes,
        session.buffer_bytes(SessionBuffer::Hmx) == session.layout.hmx_bytes,
        session.buffer_bytes(SessionBuffer::Request) >= 32 + 4 * MAX_PREFILL_TOKENS,
        session.buffer_bytes(SessionBuffer::Response) >= 24,
        session.buffer_bytes(SessionBuffer::Runtime) >= 32,
{
}

/// A buffer is mapped into the DSP under the number that was found for it and with
/// its whole size, which must fit 32 bits; each store has a method of its own, and
/// the method after it takes the buffer out again.
pub proof fn law_stores_are_mapped_whole(
    session: Qwen35Session,
    store: Store,
    other: Store,
    number: i32,
)
    requires
        number >= 0,
    ensures
        ({
            let bytes = session.buffer_bytes(
                match store {
                    Store::Base => SessionBuffer::Base,
                    Store::Hmx => SessionBuffer::Hmx,
                    Store::Runtime => SessionBuffer::Runtime,
                },
            );
            match session.progress(
                SessionStage::FindNumber(store),
                SessionEventView::Number(number),
            ) {
                SessionProgressView::Next(stage) => bytes <= u32::MAX && (session.action(
                    stage,
                ) matches SessionAction::MapDsp { method, number: handed, bytes: size } && method
                    == store.map_method() && handed == number && size == bytes),
                SessionProgressView::Failed(_) => bytes > u32::MAX,
                SessionProgressView::Ready => false,
            }
        }),
        store.unmap_method() == store.map_method() + 1,
        store != other ==> store.map_method() != other.map_method() && store.unmap_method()
            != other.unmap_method() && store.map_method() != other.unmap_method(),
{
}

/// A prefill is sent exactly where the session is bound, the prompt has two to 256
/// tokens and the request fits its buffer. The module then reads the prompt out of
/// the request: the number of tokens in the fourth word, and the tokens themselves,
/// first token first, from the ninth word on; the words before name the operation,
/// the layout and the size of the runtime buffer. Exactly these words are sent, and
/// what is behind them is left alone. Nothing is written where nothing is sent.
pub proof fn law_prefill_sends_the_prompt(
    session: Qwen35Session,
    prompt: Vec<i32>,
    request: &mut Vec<u8>,
    response: &mut Vec<u8>,
    r: Result<ComputeCall, String>,
    k: int,
)
    requires
        call_ensures(Qwen35Session::prefill, (&session, &prompt, request, response), r),
    ensures
        r is Ok <==> session.bound && 2 <= prompt@.len() <= 256 && 4 * (8 + prompt@.len())
            <= old(request)@.len(),
        r is Err ==> *final(request) == *old(request) && *final(response) == *old(response),
        r matches Ok(call) ==> {
            let sent = final(request)@;
            &&& call.method == 2
            &&& call.sent == 4 * (8 + prompt@.len())
            &&& sent.len() == old(request)@.len()
            &&& word_of(sent, 0) == 297
            &&& word_of(sent, 1) == QWEN_RUNTIME_LAYOUT_VERSION
            &&& word_of(sent, 2) == QWEN_RUNTIME_BYTES
            &&& word_of(sent, 3) == prompt@.len()
            &&& word_of(sent, 4) == 0
            &&& word_of(sent, 5) == u32::MAX
            &&& word_of(sent, 6) == 0
            &&& word_of(sent, 7) == 0
            &&& 0 <= k < prompt@.len() ==> as_signed(word_of(sent, 8 + k)) == prompt@[k]
            &&& call.sent <= k < sent.len() ==> sent[k] == old(request)@[k]
            &&& final(response)@.len() == old(response)@.len()
            &&& 0 <= k < final(response)@.len() ==> final(response)@[k] == 0
        },
{
    if r is Ok {
        lemma_prefill_words(old(request)@, prompt@, k);
    }
}

/// A decode step is sent exactly where something is in the cache and there is room
/// for one more entry. The module then reads the position and the number of the
/// token to generate out of the request, in the second and third of six words.
pub proof fn law_decode_sends_the_counters(
    session: Qwen35Session,
    request: &mut Vec<u8>,
    response: &mut Vec<u8>,
    r: Result<ComputeCall, String>,
    k: int,
)
    requires
        session.wf(),
        24 <= old(request)@.len(),
        call_ensures(Qwen35Session::decode, (&session, request, response), r),
    ensures
        r is Ok <==> 0 < session.cache_len < 4096,
        r is Err ==> *final(request) == *old(request) && *final(response) == *old(response),
        r matches Ok(call) ==> {
            let sent = final(request)@;
            &&& call.method == 2
            &&& call.sent == 4 * 6
            &&& word_of(sent, 0) == 285
            &&& word_of(sent, 1) == session.position
            &&& word_of(sent, 2) == session.generated_count
            &&& word_of(sent, 3) == 0
            &&& word_of(sent, 4) == u32::MAX
            &&& word_of(sent, 5) == 0
            &&& final(response)@.len() == old(response)@.len()
            &&& 0 <= k < final(response)@.len() ==> final(response)@[k] == 0
        },
{
    if r is Ok {
        lemma_decode_words(session, old(request)@);
    }
}

/// A reply to a prefill is a token and its logit, the number of the token, twice the
/// length of the prompt, and a status. It is taken exactly where the token is the
/// first, both lengths are that of the prompt and the status is zero. The session
/// then stands behind the prompt, with one token generated; otherwise it is as it
/// was.
pub proof fn law_prefill_replies_are_checked(
    session: &mut Qwen35Session,
    count: usize,
    response: Vec<u8>,
    blank: Seq<u8>,
    words: Seq<u32>,
    r: Result<Qwen35Token, String>,
)
    requires
        words.len() == 6,
        24 <= blank.len(),
        2 <= count <= MAX_PREFILL_TOKENS,
        response@ == with_words(blank, words),
        call_ensures(Qwen35Session::prefill_reply, (session, count, &response), r),
    ensures
        r is Ok <==> words[2] == 0 && words[3] == count && words[4] == count && words[5] == 0,
        r matches Ok(token) ==> {
            &&& token.id == words[0]
            &&& token.logit_bits == words[1]
            &&& final(session).position == count
            &&& final(session).cache_len == count
            &&& final(session).generated_count == 1
            &&& final(session).bound == old(session).bound
        },
        r is Err ==> *final(session) == *old(session),
{
    lemma_prefill_reply(blank, count, words);
}

/// A reply to a decode step is a token and its logit, the number of the token, the
/// position and a status. It is taken exactly where number and position are those
/// that the request carried and the status is zero. The session then stands one
/// token further; otherwise it is as it was.
pub proof fn law_decode_replies_are_checked(
    session: &mut Qwen35Session,
    response: Vec<u8>,
    blank: Seq<u8>,
    words: Seq<u32>,
    r: Result<Qwen35Token, String>,
)
    requires
        old(session).wf(),
        old(session).decode_refusal() is None,
        words.len() == 5,
        20 <= blank.len(),
        response@ == with_words(blank, words),
        call_ensures(Qwen35Session::decode_reply, (session, &response), r),
    ensures
        r is Ok <==> words[2] == old(session).generated_count && words[3] == old(session).position
            && words[4] == 0,
        r matches Ok(token) ==> {
            &&& token.id == words[0]
            &&& token.logit_bits == words[1]
            &&& final(session).position == old(session).position + 1
            &&& final(session).cache_len == old(session).cache_len + 1
            &&& final(session).generated_count == old(session).generated_count + 1
            &&& final(session).bound == old(session).bound
        },
        r is Err ==> *final(session) == *old(session),
{
    let request = Seq::new(24, |i: int| 0u8);
    lemma_decode_reply(*old(session), request, blank, words);
    lemma_decode_words(*old(session), request);
}

/// What is read as the output of a graph after a step is the token of the step's
/// reply, and it is the runtime's last token too.
pub proof fn law_output_is_the_replys_token<E: Copy, D>(
    runtime: &mut Qwen35Runtime<E, D>,
    prompt_len: usize,
    response: Vec<u8>,
    output: &mut Vec<u8>,
    r: Result<Qwen35Token, String>,
    read: Result<Vec<i32>, String>,
    id: usize,
)
    requires
        4 <= old(output)@.len(),
        call_ensures(
            Qwen35Runtime::<E, D>::execute_reply,
            (runtime, prompt_len, &response, output),
            r,
        ),
        call_ensures(
            Qwen35Runtime::<E, D>::get_i32,
            (&*final(runtime), id, &*final(output)),
            read,
        ),
    ensures
        r matches Ok(token) ==> {
            &&& token.id == word_of(response@, 0)
            &&& token.logit_bits == word_of(response@, 1)
            &&& final(runtime).last_token == Some(token)
            &&& final(runtime).started
            &&& read matches Ok(values) ==> values@.len() == 1 && values@[0] == as_signed(token.id)
        },
        read is Ok <==> (final(runtime).compiled matches Some(compiled) && compiled.output_hlir
            == id),
        r is Err ==> *final(runtime) == *old(runtime) && *final(output) == *old(output),
{
    if let Ok(token) = r {
        law_read_gives_what_was_written(old(output)@, 0, token.id);
    }
}

/// The first step of a graph sends the whole prompt, which has as many tokens as the
/// graph says and no more than the limit; every later step sends where the generation
/// stands, whatever the prompt then is.
pub proof fn law_steps_send_the_prompt_once<E: Copy, D>(
    runtime: Qwen35Runtime<E, D>,
    prompt_len: Option<usize>,
    prompt: Vec<i32>,
    request: &mut Vec<u8>,
    response: &mut Vec<u8>,
    call: ComputeCall,
    k: int,
)
    requires
        runtime.wf(),
        24 <= old(request)@.len(),
        call_ensures(
            Qwen35Runtime::<E, D>::execute,
            (&runtime, prompt_len, &prompt, request, response),
            Ok(call),
        ),
    ensures
        ({
            let sent = final(request)@;
            &&& runtime.compiled is Some
            &&& call.method == 2
            &&& !runtime.started ==> {
                &&& prompt_len == Some(prompt@.len() as usize)
                &&& 2 <= prompt@.len() <= runtime.max_prefill_tokens
                &&& call.sent == 4 * (8 + prompt@.len())
                &&& word_of(sent, 0) == 297
                &&& word_of(sent, 3) == prompt@.len()
                &&& 0 <= k < prompt@.len() ==> as_signed(word_of(sent, 8 + k)) == prompt@[k]
            }
            &&& runtime.started ==> {
                &&& call.sent == 4 * 6
                &&& word_of(sent, 0) == 285
                &&& word_of(sent, 1) == runtime.session.position
                &&& word_of(sent, 2) == runtime.session.generated_count
            }
        }),
{
    if runtime.started {
        lemma_decode_words(runtime.session, old(request)@);
    } else {
        lemma_prefill_words(old(request)@, prompt@, k);
    }
}

} // verus!
