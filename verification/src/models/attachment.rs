//! Files attached to vouchers (underlag).
use vstd::prelude::*;
use crate::text::to_string;

verus! {

/// A file attached to a voucher, with its bytes.
#[derive(Debug, Clone)]
pub struct VoucherAttachment {
    pub id: String,
    pub voucher_id: String,
    pub filename: String,
    pub content_type: String,
    pub size_bytes: i64,
    pub data: Vec<u8>,
    pub created_at: String,
}

/// What is shown of an attachment: everything but its bytes.
#[derive(Debug, Clone)]
pub struct AttachmentMeta {
    pub id: String,
    pub voucher_id: String,
    pub filename: String,
    pub content_type: String,
    pub size_bytes: i64,
    pub created_at: String,
}

impl AttachmentMeta {
    /// The description of an attachment.
    pub fn of(a: &VoucherAttachment) -> (m: AttachmentMeta)
        ensures
            m.id@ == a.id@,
            m.voucher_id@ == a.voucher_id@,
            m.filename@ == a.filename@,
            m.content_type@ == a.content_type@,
            m.size_bytes == a.size_bytes,
            m.created_at@ == a.created_at@,
    {
        AttachmentMeta {
            id: to_string(a.id.as_str()),
            voucher_id: to_string(a.voucher_id.as_str()),
            filename: to_string(a.filename.as_str()),
            content_type: to_string(a.content_type.as_str()),
            size_bytes: a.size_bytes,
            created_at: to_string(a.created_at.as_str()),
        }
    }
}

} // verus!
