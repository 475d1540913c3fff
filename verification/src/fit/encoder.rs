//! Framing of a FIT file: definition records, data records, the 14-byte
//! header and the two checksums.

use vstd::prelude::*;
use super::crc::fit_crc;
use super::crc::spec_fit_crc;
use super::types::FieldDef;
use crate::bytes::{append_bytes, le16, le32, u16_bytes, u32_bytes};

verus! {

/// The three bytes of each descriptor, in order.
pub open spec fn field_defs_bytes(fields: Seq<FieldDef>) -> Seq<u8>
    decreases fields.len(),
{
    if fields.len() == 0 {
        Seq::empty()
    } else {
        field_defs_bytes(fields.drop_last()) + seq![
            fields.last().field_num,
            fields.last().size,
            fields.last().base_type,
        ]
    }
}

/// A definition record: header byte with bit 6 set, a reserved byte, the
/// little-endian architecture byte, the global message number, the number of
/// fields, and the descriptors.
pub open spec fn definition_record(local: u8, global: u16, fields: Seq<FieldDef>) -> Seq<u8> {
    seq![0x40u8 | (local & 0x0F), 0u8, 0u8] + le16(global) + seq![(fields.len() % 256) as u8]
        + field_defs_bytes(fields)
}

/// The field values of a data record, one after the other.
pub open spec fn concat_fields(field_data: Seq<Seq<u8>>) -> Seq<u8>
    decreases field_data.len(),
{
    if field_data.len() == 0 {
        Seq::empty()
    } else {
        concat_fields(field_data.drop_last()) + field_data.last()
    }
}

/// A data record: header byte with bit 6 clear, then the field values.
pub open spec fn data_record(local: u8, field_data: Seq<Seq<u8>>) -> Seq<u8> {
    seq![local & 0x0F] + concat_fields(field_data)
}

/// The first twelve bytes of the header of a file whose message stream has
/// `stream_len` bytes.
pub open spec fn header_prefix(stream_len: nat) -> Seq<u8> {
    seq![14u8, 0x20u8] + le16(0x0867) + le32((stream_len % 0x1_0000_0000) as u32) + seq![
        0x2Eu8,
        0x46u8,
        0x49u8,
        0x54u8,
    ]
}

/// The 14-byte header: the prefix and its checksum.
pub open spec fn fit_header(stream_len: nat) -> Seq<u8> {
    header_prefix(stream_len) + le16(spec_fit_crc(header_prefix(stream_len)))
}

/// A whole file: header, message stream, and the checksum of both.
pub open spec fn fit_file(stream: Seq<u8>) -> Seq<u8> {
    fit_header(stream.len()) + stream + le16(spec_fit_crc(fit_header(stream.len()) + stream))
}

/// Writes FIT records one after the other and closes them into a file.
pub struct FitEncoder {
    data: Vec<u8>,
    defined: [bool; 16],
}

impl FitEncoder {
    /// The message stream written so far.
    pub closed spec fn stream(&self) -> Seq<u8> {
        self.data@
    }

    /// Whether a definition was written for local message type `local`.
    pub closed spec fn is_defined(&self, local: u8) -> bool {
        local < 16 && self.defined@[local as int]
    }

    pub fn new() -> (encoder: Self)
        ensures
            encoder.stream() == Seq::<u8>::empty(),
            forall|local: u8| !encoder.is_defined(local),
    {
        Self { data: Vec::with_capacity(4096), defined: [false; 16] }
    }

    /// Writes the definition record that binds `local_mesg_type` to
    /// `global_mesg_num` and lists `fields`.
    pub fn write_definition(
        &mut self,
        local_mesg_type: u8,
        global_mesg_num: u16,
        fields: &[FieldDef],
    )
        requires
            local_mesg_type < 16,
        ensures
            final(self).stream() == old(self).stream() + definition_record(
                local_mesg_type,
                global_mesg_num,
                fields@,
            ),
            forall|local: u8|
                final(self).is_defined(local) == (local == local_mesg_type || old(self).is_defined(
                    local,
                )),
    {
        let global: [u8; 2] = u16_bytes(global_mesg_num);
        self.data.push(0x40 | (local_mesg_type & 0x0F));
        self.data.push(0x00);
        self.data.push(0x00);
        self.data.push(global[0]);
        self.data.push(global[1]);
        self.data.push((fields.len() % 256) as u8);
        let ghost head = self.data@;
        let mut i: usize = 0;
        while i < fields.len()
            invariant
                i <= fields.len(),
                self.data@ == head + field_defs_bytes(fields@.take(i as int)),
                self.defined == old(self).defined,
            decreases fields.len() - i,
        {
            proof {
                assert(fields@.take(i + 1).drop_last() =~= fields@.take(i as int));
            }
            let field: FieldDef = fields[i];
            self.data.push(field.field_num);
            self.data.push(field.size);
            self.data.push(field.base_type);
            i += 1;
        }
        proof {
            assert(fields@.take(i as int) =~= fields@);
        }
        self.defined[local_mesg_type as usize] = true;
    }

    /// Writes a data record for `local_mesg_type`: the field values in the
    /// order of the latest definition bound to that type.
    pub fn write_data(&mut self, local_mesg_type: u8, field_data: &[&[u8]])
        ensures
            final(self).stream() == old(self).stream() + data_record(
                local_mesg_type,
                field_values(field_data@),
            ),
            forall|local: u8| final(self).is_defined(local) == old(self).is_defined(local),
    {
        self.data.push(local_mesg_type & 0x0F);
        let ghost head = self.data@;
        let mut i: usize = 0;
        while i < field_data.len()
            invariant
                i <= field_data.len(),
                self.data@ == head + concat_fields(field_values(field_data@).take(i as int)),
                self.defined == old(self).defined,
            decreases field_data.len() - i,
        {
            proof {
                let values = field_values(field_data@);
                assert(values.take(i + 1).drop_last() =~= values.take(i as int));
            }
            append_bytes(&mut self.data, field_data[i]);
            i += 1;
        }
        proof {
            let values = field_values(field_data@);
            assert(values.take(i as int) =~= values);
        }
    }

    /// Writes a data record, and before it the definition if none was
    /// written yet for `local_mesg_type`.
    pub fn write_message(
        &mut self,
        local_mesg_type: u8,
        global_mesg_num: u16,
        fields: &[FieldDef],
        field_data: &[&[u8]],
    )
        requires
            local_mesg_type < 16,
        ensures
            final(self).stream() == old(self).stream() + (if old(self).is_defined(local_mesg_type) {
                Seq::<u8>::empty()
            } else {
                definition_record(local_mesg_type, global_mesg_num, fields@)
            }) + data_record(local_mesg_type, field_values(field_data@)),
            forall|local: u8|
                final(self).is_defined(local) == (local == local_mesg_type || old(self).is_defined(
                    local,
                )),
    {
        if !self.defined[local_mesg_type as usize] {
            self.write_definition(local_mesg_type, global_mesg_num, fields);
        }
        self.write_data(local_mesg_type, field_data);
    }

    /// Writes the definition and then a data record, whether or not the
    /// local type was defined before.
    pub fn write_message_with_def(
        &mut self,
        local_mesg_type: u8,
        global_mesg_num: u16,
        fields: &[FieldDef],
        field_data: &[&[u8]],
    )
        requires
            local_mesg_type < 16,
        ensures
            final(self).stream() == old(self).stream() + definition_record(
                local_mesg_type,
                global_mesg_num,
                fields@,
            ) + data_record(local_mesg_type, field_values(field_data@)),
            forall|local: u8|
                final(self).is_defined(local) == (local == local_mesg_type || old(self).is_defined(
                    local,
                )),
    {
        self.write_definition(local_mesg_type, global_mesg_num, fields);
        self.write_data(local_mesg_type, field_data);
    }

    /// Closes the stream into a file: the header before it, the checksum of
    /// header and stream after it.
    pub fn finish(self) -> (file: Vec<u8>)
        ensures
            file@ == fit_file(self.stream()),
            file@.len() == 16 + self.stream().len(),
            file@[0] == 14,
            file@.subrange(8, 12) == seq![0x2Eu8, 0x46u8, 0x49u8, 0x54u8],
    {
        proof {
            lemma_file_structure(self.data@);
        }
        let data_size: u32 = (self.data.len() as u64 % 0x1_0000_0000) as u32;
        let mut header: Vec<u8> = Vec::with_capacity(14);
        header.push(14);
        header.push(0x20);
        append_bytes(&mut header, u16_bytes(0x0867).as_slice());
        append_bytes(&mut header, u32_bytes(data_size).as_slice());
        header.push(0x2E);
        header.push(0x46);
        header.push(0x49);
        header.push(0x54);
        assert(header@ =~= header_prefix(self.data@.len()));
        let header_crc: u16 = fit_crc(header.as_slice());
        append_bytes(&mut header, u16_bytes(header_crc).as_slice());

        let mut file: Vec<u8> = Vec::new();
        append_bytes(&mut file, header.as_slice());
        append_bytes(&mut file, self.data.as_slice());
        assert(file@ =~= fit_header(self.data@.len()) + self.data@);
        let file_crc: u16 = fit_crc(file.as_slice());
        append_bytes(&mut file, u16_bytes(file_crc).as_slice());
        file
    }
}

/// Every file begins with the header size 14, carries the signature `.FIT`
/// at offsets 8 to 11, and is sixteen bytes longer than its message stream.
pub proof fn lemma_file_structure(stream: Seq<u8>)
    ensures
        fit_file(stream).len() == 16 + stream.len(),
        fit_file(stream).len() >= 16,
        fit_file(stream)[0] == 14,
        fit_file(stream)[1] == 0x20,
        fit_file(stream).subrange(8, 12) == seq![0x2Eu8, 0x46u8, 0x49u8, 0x54u8],
        fit_file(stream).subrange(14, 14 + stream.len() as int) == stream,
        fit_file(stream).subrange(14 + stream.len() as int, 16 + stream.len() as int) == le16(
            spec_fit_crc(fit_file(stream).subrange(0, 14 + stream.len() as int)),
        ),
{
    let prefix = header_prefix(stream.len());
    let header = fit_header(stream.len());
    let file = fit_file(stream);
    assert(prefix.len() == 12);
    assert(header.len() == 14);
    assert(file.subrange(8, 12) =~= seq![0x2Eu8, 0x46u8, 0x49u8, 0x54u8]);
    assert(file.subrange(14, 14 + stream.len() as int) =~= stream);
    assert(file.subrange(0, 14 + stream.len() as int) =~= header + stream);
    assert(file.subrange(14 + stream.len() as int, 16 + stream.len() as int) =~= le16(
        spec_fit_crc(header + stream),
    ));
}

/// The field values behind a slice of byte slices.
pub open spec fn field_values(field_data: Seq<&[u8]>) -> Seq<Seq<u8>> {
    Seq::new(field_data.len(), |i: int| field_data[i]@)
}

} // verus!
