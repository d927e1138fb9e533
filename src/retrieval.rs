use vstd::prelude::*;
use crate::error::ErrorKind;
use crate::notification::{parse_notification, reference_of_records, s3_event_records, size_model};

verus! {

/// Default deadline for one object fetch, in milliseconds.
pub const DEFAULT_FETCH_DEADLINE_MS: u64 = 2000;

/// Smallest receive buffer that a fetch preallocates, in bytes.
pub const MIN_BUFFER_CAPACITY: u64 = 1024;

/// Turns the raw bytes of a payload into a typed event. Decoding is a pure
/// function of the bytes handed over: `decoded` states it, and `decode`
/// computes it.
pub trait PayloadDecoder<E> {
    spec fn decoded(&self, bytes: Vec<u8>) -> Result<E, String>;

    fn decode(&self, bytes: Vec<u8>) -> (r: Result<E, String>)
        ensures
            r == self.decoded(bytes),
    ;
}

/// A decoder for pipelines whose events are the payload bytes themselves.
#[derive(Clone, Copy, Debug, PartialEq, Eq)]
pub struct RawPayloadDecoder;

impl PayloadDecoder<Vec<u8>> for RawPayloadDecoder {
    open spec fn decoded(&self, bytes: Vec<u8>) -> Result<Vec<u8>, String> {
        Ok(bytes)
    }

    fn decode(&self, bytes: Vec<u8>) -> (r: Result<Vec<u8>, String>) {
        Ok(bytes)
    }
}

/// Everything needed to issue one object fetch: where the object is, how long
/// the fetch may take, and how large a buffer to start with.
#[derive(Clone, Debug, PartialEq, Eq)]
pub struct FetchRequest {
    pub bucket: String,
    pub key: String,
    pub deadline_ms: u64,
    pub capacity: u64,
}

/// What came back from one object fetch.
#[derive(Clone, Debug, PartialEq, Eq)]
pub enum FetchOutcome {
    /// The fetch did not finish before its deadline was enforced.
    TimedOut,
    /// The store refused the request or could not be reached.
    Failed,
    /// The store answered. `content_length` is the length it announced,
    /// `body` what was read, and `stream_error` whether reading broke off.
    Delivered { elapsed_ms: u64, content_length: Option<i64>, body: Vec<u8>, stream_error: bool },
}

/// Buffer size for an object of the given declared size: the declared size,
/// but never below the floor; the floor when no size was declared.
pub open spec fn buffer_capacity(declared: Option<int>) -> int {
    match declared {
        Some(n) => if n >= MIN_BUFFER_CAPACITY {
            n
        } else {
            MIN_BUFFER_CAPACITY as int
        },
        None => MIN_BUFFER_CAPACITY as int,
    }
}

/// The verdict on a fetch outcome under a deadline: the bytes of the object
/// when it was read whole and in time, else the kind of failure. A late
/// answer counts as a timeout and hands back none of its bytes.
pub open spec fn fetch_verdict(deadline_ms: u64, outcome: FetchOutcome) -> Result<
    Seq<u8>,
    ErrorKind,
> {
    match outcome {
        FetchOutcome::TimedOut => Err(ErrorKind::RetrievalTimeout),
        FetchOutcome::Failed => Err(ErrorKind::RetrievalIoError),
        FetchOutcome::Delivered { elapsed_ms, content_length, body, stream_error } => {
            if elapsed_ms > deadline_ms {
                Err(ErrorKind::RetrievalTimeout)
            } else if stream_error {
                Err(ErrorKind::RetrievalIoError)
            } else {
                match content_length {
                    Some(n) => if n != body@.len() {
                        Err(ErrorKind::RetrievalIoError)
                    } else {
                        Ok(body@)
                    },
                    None => Ok(body@),
                }
            }
        },
    }
}

/// Computes the receive buffer size for a declared object size.
pub fn preallocation_size(declared: Option<i64>) -> (r: u64)
    ensures
        r as int == buffer_capacity(size_model(declared)),
{
    match declared {
        Some(n) => if n >= MIN_BUFFER_CAPACITY as i64 {
            n as u64
        } else {
            MIN_BUFFER_CAPACITY
        },
        None => MIN_BUFFER_CAPACITY,
    }
}

/// The pipeline's view of a decoder's result: the event passes through, and
/// a decoder error becomes `DecodeError` with the decoder's text unchanged.
pub open spec fn decode_outcome<E>(decoded: Result<E, String>) -> Result<E, ErrorKind> {
    match decoded {
        Ok(e) => Ok(e),
        Err(c) => Err(ErrorKind::DecodeError { cause: c }),
    }
}

/// Maps the result of a payload decoder into the pipeline's error kinds.
pub fn decode_verdict<E>(decoded: Result<E, String>) -> (r: Result<E, ErrorKind>)
    ensures
        r == decode_outcome(decoded),
{
    match decoded {
        Ok(e) => Ok(e),
        Err(c) => Err(ErrorKind::DecodeError { cause: c }),
    }
}

/// Retrieves events whose payloads sit in an object store. The store client
/// is carried for the code that performs the fetch; this type decides what to
/// fetch, judges what came back, and decodes it.
#[derive(Clone)]
pub struct S3PayloadRetriever<S, D> {
    s3: S,
    decoder: D,
    fetch_deadline_ms: u64,
}

impl<S, D> S3PayloadRetriever<S, D> {
    pub closed spec fn deadline(&self) -> u64 {
        self.fetch_deadline_ms
    }

    pub closed spec fn client(&self) -> S {
        self.s3
    }

    pub closed spec fn payload_decoder(&self) -> D {
        self.decoder
    }

    /// A retriever with the default fetch deadline.
    pub fn new(s3: S, decoder: D) -> (r: Self)
        ensures
            r.deadline() == DEFAULT_FETCH_DEADLINE_MS,
            r.client() == s3,
            r.payload_decoder() == decoder,
    {
        S3PayloadRetriever { s3, decoder, fetch_deadline_ms: DEFAULT_FETCH_DEADLINE_MS }
    }

    /// A retriever with a fetch deadline of its own.
    pub fn with_fetch_deadline(s3: S, decoder: D, deadline_ms: u64) -> (r: Self)
        ensures
            r.deadline() == deadline_ms,
            r.client() == s3,
            r.payload_decoder() == decoder,
    {
        S3PayloadRetriever { s3, decoder, fetch_deadline_ms: deadline_ms }
    }

    pub fn fetch_deadline_ms(&self) -> (r: u64)
        ensures
            r == self.deadline(),
    {
        self.fetch_deadline_ms
    }

    /// The object-store client, for issuing the fetch.
    pub fn store(&self) -> (r: &S)
        ensures
            *r == self.client(),
    {
        &self.s3
    }

    /// Reads a message body and says which object to fetch, under this
    /// retriever's deadline and with a buffer sized from the declared size.
    /// A body that names no object fails with `MalformedNotification`, and then
    /// there is no request to fetch with.
    pub fn plan_fetch(&self, body: Option<&str>) -> (r: Result<FetchRequest, ErrorKind>)
        ensures
            match body {
                None => r == Err::<FetchRequest, ErrorKind>(ErrorKind::MalformedNotification),
                Some(b) => match reference_of_records(s3_event_records(b@)) {
                    Some(m) => r is Ok && r->Ok_0.bucket@ == m.0 && r->Ok_0.key@ == m.1
                        && r->Ok_0.deadline_ms == self.deadline() && r->Ok_0.capacity as int
                        == buffer_capacity(m.2),
                    None => r == Err::<FetchRequest, ErrorKind>(
                        ErrorKind::MalformedNotification,
                    ),
                },
            },
    {
        let reference = parse_notification(body)?;
        let capacity = preallocation_size(reference.declared_size);
        Ok(
            FetchRequest {
                bucket: reference.bucket,
                key: reference.key,
                deadline_ms: self.fetch_deadline_ms,
                capacity,
            },
        )
    }

    /// Judges the outcome of the fetch that `request` described: the object's
    /// bytes when they were read whole within the deadline, else the failure.
    /// On success the buffer that was read is handed back as it is, so the
    /// decoder gets exactly those bytes.
    pub fn accept_fetch(&self, request: &FetchRequest, outcome: FetchOutcome) -> (r: Result<
        Vec<u8>,
        ErrorKind,
    >)
        ensures
            match fetch_verdict(request.deadline_ms, outcome) {
                Ok(bytes) => r is Ok && r->Ok_0@ == bytes,
                Err(kind) => r == Err::<Vec<u8>, ErrorKind>(kind),
            },
            match outcome {
                FetchOutcome::Delivered { body, .. } => r is Ok ==> r->Ok_0 == body,
                _ => r is Err,
            },
    {
        match outcome {
            FetchOutcome::TimedOut => Err(ErrorKind::RetrievalTimeout),
            FetchOutcome::Failed => Err(ErrorKind::RetrievalIoError),
            FetchOutcome::Delivered { elapsed_ms, content_length, body, stream_error } => {
                if elapsed_ms > request.deadline_ms {
                    Err(ErrorKind::RetrievalTimeout)
                } else if stream_error {
                    Err(ErrorKind::RetrievalIoError)
                } else {
                    match content_length {
                        Some(n) => if n < 0 || n as u64 != body.len() as u64 {
                            Err(ErrorKind::RetrievalIoError)
                        } else {
                            Ok(body)
                        },
                        None => Ok(body),
                    }
                }
            },
        }
    }

    /// Hands the fetched bytes to this retriever's decoder and returns its
    /// event, or its error as `DecodeError` with the cause unchanged.
    pub fn decode_payload<E>(&self, bytes: Vec<u8>) -> (r: Result<E, ErrorKind>) where
        D: PayloadDecoder<E>,

        ensures
            r == decode_outcome(self.payload_decoder().decoded(bytes)),
    {
        decode_verdict(self.decoder.decode(bytes))
    }
}

} // verus!
