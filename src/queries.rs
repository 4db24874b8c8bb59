//! Read-only queries over the collection. Each response hands the incoming
//! transfers back and carries its answer as the payload.

use vstd::prelude::*;
use vstd::slice::slice_to_vec;
use vstd::utf8::encode_utf8;

use crate::codec::{u128_le, u128_to_le};
use crate::collection::{
    count_in, encode_alkane_id, encode_id, lookup_in, GigaDogiCollection, TOTAL_SUPPLY,
};
use crate::metadata::{
    decimal, dogi_attributes, dogi_url, push_decimal, DOGI_ATTRIBUTES_0, DOGI_ATTRIBUTES_1,
    DOGI_ATTRIBUTES_2, DOGI_ATTRIBUTES_3, DOGI_ATTRIBUTES_4, DOGI_COUNT, DOGI_URL_0, DOGI_URL_1,
    DOGI_URL_2, DOGI_URL_3, DOGI_URL_4, NAME, SYMBOL,
};
use crate::types::{forward, AlkaneId, CallResponse, CollectionError, Context};

verus! {

/// The text `realm:sequence` of an identity, in ASCII decimal.
pub open spec fn identifier_text(id: AlkaneId) -> Seq<u8> {
    decimal(id.block as nat) + seq![58u8] + decimal(id.tx as nat)
}

/// The UTF-8 bytes of `s`.
fn text_bytes(s: &str) -> (r: Vec<u8>)
    ensures
        r@ == encode_utf8(s@),
{
    slice_to_vec(s.as_bytes())
}

/// A response forwarding `context`'s incoming transfers with `data` as payload.
fn respond(context: &Context, data: Vec<u8>) -> (r: CallResponse)
    ensures
        r.alkanes@ == context.incoming_alkanes@,
        r.data@ == data@,
{
    let mut response = forward(&context.incoming_alkanes);
    response.data = data;
    response
}

impl GigaDogiCollection {
    /// The collection's name.
    pub fn name(&self) -> (r: String)
        ensures
            r@ == NAME@,
    {
        NAME.to_owned()
    }

    /// The collection's symbol.
    pub fn symbol(&self) -> (r: String)
        ensures
            r@ == SYMBOL@,
    {
        SYMBOL.to_owned()
    }

    /// The name, as UTF-8.
    pub fn get_name(&self, context: &Context) -> (r: CallResponse)
        ensures
            r.alkanes@ == context.incoming_alkanes@,
            r.data@ == encode_utf8(NAME@),
    {
        let name = self.name();
        respond(context, text_bytes(name.as_str()))
    }

    /// The symbol, as UTF-8.
    pub fn get_symbol(&self, context: &Context) -> (r: CallResponse)
        ensures
            r.alkanes@ == context.incoming_alkanes@,
            r.data@ == encode_utf8(SYMBOL@),
    {
        let symbol = self.symbol();
        respond(context, text_bytes(symbol.as_str()))
    }

    /// The collection token's total supply, 16 bytes little-endian.
    pub fn get_total_supply(&self, context: &Context) -> (r: CallResponse)
        ensures
            r.alkanes@ == context.incoming_alkanes@,
            r.data@ == u128_le(TOTAL_SUPPLY),
    {
        respond(context, u128_to_le(TOTAL_SUPPLY))
    }

    /// The number of orbitals minted, 16 bytes little-endian.
    pub fn get_orbital_count(&self, context: &Context) -> (r: CallResponse)
        requires
            self.wf(),
        ensures
            r.alkanes@ == context.incoming_alkanes@,
            r.data@ == u128_le(count_in(self@)),
    {
        respond(context, u128_to_le(self.instances_count()))
    }

    /// The trait text of the orbital at `index`; `IndexOutOfBounds` past the table.
    pub fn generate_dogi_attributes(&self, index: u128) -> (r: Result<String, CollectionError>)
        ensures
            index >= DOGI_COUNT ==> r == Err::<String, CollectionError>(
                CollectionError::IndexOutOfBounds,
            ),
            index < DOGI_COUNT ==> (r matches Ok(s) && s@ == dogi_attributes(index)),
    {
        if index >= DOGI_COUNT {
            return Err(CollectionError::IndexOutOfBounds);
        }
        let traits = if index == 0 {
            DOGI_ATTRIBUTES_0
        } else if index == 1 {
            DOGI_ATTRIBUTES_1
        } else if index == 2 {
            DOGI_ATTRIBUTES_2
        } else if index == 3 {
            DOGI_ATTRIBUTES_3
        } else {
            DOGI_ATTRIBUTES_4
        };
        Ok(traits.to_owned())
    }

    /// The image address of the orbital at `index`; `IndexOutOfBounds` past the table.
    pub fn get_cloudinary_url(&self, index: u128) -> (r: Result<String, CollectionError>)
        ensures
            index >= DOGI_COUNT ==> r == Err::<String, CollectionError>(
                CollectionError::IndexOutOfBounds,
            ),
            index < DOGI_COUNT ==> (r matches Ok(s) && s@ == dogi_url(index)),
    {
        if index >= DOGI_COUNT {
            return Err(CollectionError::IndexOutOfBounds);
        }
        let url = if index == 0 {
            DOGI_URL_0
        } else if index == 1 {
            DOGI_URL_1
        } else if index == 2 {
            DOGI_URL_2
        } else if index == 3 {
            DOGI_URL_3
        } else {
            DOGI_URL_4
        };
        Ok(url.to_owned())
    }

    /// The trait text of the orbital at `index`, as UTF-8.
    pub fn get_attributes(&self, context: &Context, index: u128) -> (r: Result<CallResponse, CollectionError>)
        ensures
            index >= DOGI_COUNT ==> r matches Err(CollectionError::IndexOutOfBounds),
            index < DOGI_COUNT ==> (r matches Ok(resp) && resp.alkanes@ == context.incoming_alkanes@
                && resp.data@ == encode_utf8(dogi_attributes(index))),
    {
        let attributes = self.generate_dogi_attributes(index)?;
        Ok(respond(context, text_bytes(attributes.as_str())))
    }

    /// The image address of the orbital at `index`, as UTF-8.
    pub fn get_data(&self, context: &Context, index: u128) -> (r: Result<CallResponse, CollectionError>)
        ensures
            index >= DOGI_COUNT ==> r matches Err(CollectionError::IndexOutOfBounds),
            index < DOGI_COUNT ==> (r matches Ok(resp) && resp.alkanes@ == context.incoming_alkanes@
                && resp.data@ == encode_utf8(dogi_url(index))),
    {
        let url = self.get_cloudinary_url(index)?;
        Ok(respond(context, text_bytes(url.as_str())))
    }

    /// The 32-byte record of the identity at public index `index`.
    pub fn get_instance_alkane_id(&self, context: &Context, index: u128) -> (r: Result<CallResponse, CollectionError>)
        requires
            self.wf(),
        ensures
            lookup_in(self@, index) matches Err(e) ==> r == Err::<CallResponse, CollectionError>(e),
            lookup_in(self@, index) matches Ok(id) ==> (r matches Ok(resp)
                && resp.alkanes@ == context.incoming_alkanes@ && resp.data@ == encode_id(id)),
    {
        let instance_id = self.lookup_instance(index)?;
        Ok(respond(context, encode_alkane_id(&instance_id)))
    }

    /// The identity at public index `index`, as the text `realm:sequence`.
    pub fn get_instance_identifier(&self, context: &Context, index: u128) -> (r: Result<CallResponse, CollectionError>)
        requires
            self.wf(),
        ensures
            lookup_in(self@, index) matches Err(e) ==> r == Err::<CallResponse, CollectionError>(e),
            lookup_in(self@, index) matches Ok(id) ==> (r matches Ok(resp)
                && resp.alkanes@ == context.incoming_alkanes@ && resp.data@ == identifier_text(id)),
    {
        let instance_id = self.lookup_instance(index)?;
        let mut text: Vec<u8> = Vec::new();
        push_decimal(&mut text, instance_id.block);
        text.push(58u8);
        push_decimal(&mut text, instance_id.tx);
        assert(text@ =~= identifier_text(instance_id));
        Ok(respond(context, text))
    }
}

} // verus!
