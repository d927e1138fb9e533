use vstd::prelude::*;
use crate::error::ErrorKind;

verus! {

/// What one record of an object-store notification says about the object it
/// names: bucket, key and declared size, each as the notification gave it.
#[derive(Clone, Debug, PartialEq, Eq)]
pub struct NotificationRecord {
    pub bucket: Option<String>,
    pub key: Option<String>,
    pub size: Option<i64>,
}

/// The location of a stored payload, taken from a notification.
#[derive(Clone, Debug, PartialEq, Eq)]
pub struct ObjectReference {
    pub bucket: String,
    pub key: String,
    /// Size announced by the notification; only a hint for buffer sizing.
    pub declared_size: Option<i64>,
}

pub open spec fn text_model(s: Option<String>) -> Option<Seq<char>> {
    match s {
        Some(t) => Some(t@),
        None => None,
    }
}

pub open spec fn size_model(s: Option<i64>) -> Option<int> {
    match s {
        Some(n) => Some(n as int),
        None => None,
    }
}

impl NotificationRecord {
    pub open spec fn model(&self) -> (Option<Seq<char>>, Option<Seq<char>>, Option<int>) {
        (text_model(self.bucket), text_model(self.key), size_model(self.size))
    }
}

impl ObjectReference {
    pub open spec fn model(&self) -> (Seq<char>, Seq<char>, Option<int>) {
        (self.bucket@, self.key@, size_model(self.declared_size))
    }
}

pub open spec fn records_model(records: Option<Vec<NotificationRecord>>) -> Option<
    Seq<(Option<Seq<char>>, Option<Seq<char>>, Option<int>)>,
> {
    match records {
        Some(v) => Some(v@.map_values(|r: NotificationRecord| r.model())),
        None => None,
    }
}

/// The records that a notification body holds when it parses as an
/// object-store event, in the order they appear; `None` when it does not parse.
pub uninterp spec fn s3_event_records(body: Seq<char>) -> Option<
    Seq<(Option<Seq<char>>, Option<Seq<char>>, Option<int>)>,
>;

/// The object a notification refers to: its first record, provided the
/// notification parsed, has at least one record, and that record names both a
/// bucket and a key. Any further records are not consulted.
pub open spec fn reference_of_records(
    records: Option<Seq<(Option<Seq<char>>, Option<Seq<char>>, Option<int>)>>,
) -> Option<(Seq<char>, Seq<char>, Option<int>)> {
    match records {
        None => None,
        Some(rs) => if rs.len() == 0 {
            None
        } else {
            match (rs[0].0, rs[0].1) {
                (Some(bucket), Some(key)) => Some((bucket, key, rs[0].2)),
                _ => None,
            }
        },
    }
}

/// Relies on `serde_json::from_str` into `aws_lambda_events`' `S3Event`: the
/// parse depends on the body alone. Each record is converted field by field.
#[verifier::external_body]
fn parse_s3_event(body: &str) -> (r: Option<Vec<NotificationRecord>>)
    ensures
        records_model(r) == s3_event_records(body@),
{
    serde_json::from_str::<aws_lambda_events::event::s3::S3Event>(body).ok().map(
        |event| event.records.into_iter().map(|rec| NotificationRecord {
            bucket: rec.s3.bucket.name,
            key: rec.s3.object.key,
            size: rec.s3.object.size,
        }).collect(),
    )
}

/// Picks the referenced object out of already parsed notification records.
/// Fails with `MalformedNotification` exactly when the records name no object.
pub fn reference_from_records(records: Option<Vec<NotificationRecord>>) -> (r: Result<
    ObjectReference,
    ErrorKind,
>)
    ensures
        match reference_of_records(records_model(records)) {
            Some(m) => r is Ok && r->Ok_0.model() == m,
            None => r == Err::<ObjectReference, ErrorKind>(ErrorKind::MalformedNotification),
        },
{
    match records {
        None => Err(ErrorKind::MalformedNotification),
        Some(mut rs) => {
            if rs.len() == 0 {
                return Err(ErrorKind::MalformedNotification);
            }
            let ghost models = rs@.map_values(|r: NotificationRecord| r.model());
            let first = rs.remove(0);
            assert(first.model() == models[0]);
            match (first.bucket, first.key) {
                (Some(bucket), Some(key)) => Ok(
                    ObjectReference { bucket, key, declared_size: first.size },
                ),
                _ => Err(ErrorKind::MalformedNotification),
            }
        },
    }
}

/// Parses a queue message body into the object it refers to. An absent body,
/// one that does not parse, or one with no usable record is rejected with
/// `MalformedNotification`.
pub fn parse_notification(body: Option<&str>) -> (r: Result<ObjectReference, ErrorKind>)
    ensures
        match body {
            None => r == Err::<ObjectReference, ErrorKind>(ErrorKind::MalformedNotification),
            Some(b) => match reference_of_records(s3_event_records(b@)) {
                Some(m) => r is Ok && r->Ok_0.model() == m,
                None => r == Err::<ObjectReference, ErrorKind>(
                    ErrorKind::MalformedNotification,
                ),
            },
        },
{
    match body {
        None => Err(ErrorKind::MalformedNotification),
        Some(b) => reference_from_records(parse_s3_event(b)),
    }
}

} // verus!
