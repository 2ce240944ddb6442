//! The stored form of the ledgers. An operation loads a ledger from the
//! bytes of its account, works on it in memory, and stores it back when it
//! is done.
use crate::address::Address;
use crate::error::ProgramFault;
use crate::state::{AccountTag, DexState, FeeSchedule, MarketFeeType};
use crate::user_account::{CallBackInfo, Order, UserAccount, UserAccountHeader};
use crate::wire::{
    put_address, put_u128, put_u32, put_u64, read_address, read_u128, read_u32, read_u64,
    spec_address_at, spec_u128_at, spec_u32_at, spec_u64_at,
};
use vstd::bytes::*;
use vstd::prelude::*;

verus! {

/// Size in bytes of a stored market ledger.
pub const DEX_STATE_LEN: usize = 448;

/// The number under which a tag is stored.
pub open spec fn spec_tag_code(tag: AccountTag) -> u64 {
    match tag {
        AccountTag::Uninitialized => 0,
        AccountTag::DexState => 1,
        AccountTag::UserAccount => 2,
        AccountTag::Closed => 3,
    }
}

/// The number under which a tag is stored.
pub fn tag_code(tag: AccountTag) -> (r: u64)
    ensures
        r == spec_tag_code(tag),
{
    match tag {
        AccountTag::Uninitialized => 0,
        AccountTag::DexState => 1,
        AccountTag::UserAccount => 2,
        AccountTag::Closed => 3,
    }
}

/// The tag stored under a number, if the number is one of a tag.
pub fn tag_from_code(code: u64) -> (r: Option<AccountTag>)
    ensures
        match r {
            Some(tag) => spec_tag_code(tag) == code,
            None => code > 3,
        },
{
    match code {
        0 => Some(AccountTag::Uninitialized),
        1 => Some(AccountTag::DexState),
        2 => Some(AccountTag::UserAccount),
        3 => Some(AccountTag::Closed),
        _ => None,
    }
}

/// The bytes begin with the stored form of the header: every field at its
/// offset, integers in little-endian order.
pub open spec fn header_stored_as(h: UserAccountHeader, data: Seq<u8>) -> bool {
    &&& data.len() >= 152
    &&& spec_u64_at(data, 0) == spec_tag_code(h.tag)
    &&& spec_address_at(data, 8) == h.market@
    &&& spec_address_at(data, 40) == h.owner@
    &&& spec_u64_at(data, 72) == h.base_token_free
    &&& spec_u64_at(data, 80) == h.base_token_locked
    &&& spec_u64_at(data, 88) == h.quote_token_free
    &&& spec_u64_at(data, 96) == h.quote_token_locked
    &&& spec_u64_at(data, 104) == h.accumulated_rebates
    &&& spec_u64_at(data, 112) == h.accumulated_maker_quote_volume
    &&& spec_u64_at(data, 120) == h.accumulated_maker_base_volume
    &&& spec_u64_at(data, 128) == h.accumulated_taker_quote_volume
    &&& spec_u64_at(data, 136) == h.accumulated_taker_base_volume
    &&& spec_u32_at(data, 148) == h.number_of_orders
}

/// The order is stored at `offset`: its id, then its client id.
pub open spec fn order_stored_at(order: Order, data: Seq<u8>, offset: int) -> bool {
    &&& offset + 32 <= data.len()
    &&& spec_u128_at(data, offset) == order.id
    &&& spec_u128_at(data, offset + 16) == order.client_id
}

/// Reads the header that the bytes begin with. Bytes too short for a
/// header, or with an unknown tag, hold none.
pub fn unpack_header(data: &[u8]) -> (r: Option<UserAccountHeader>)
    ensures
        r is None <==> (data@.len() < 152 || spec_u64_at(data@, 0) > 3),
        r is Some ==> header_stored_as(r.unwrap(), data@),
{
    if data.len() < 152 {
        return None;
    }
    let tag = match tag_from_code(read_u64(data, 0)) {
        Some(t) => t,
        None => {
            return None;
        },
    };
    Some(
        UserAccountHeader {
            tag,
            market: read_address(data, 8),
            owner: read_address(data, 40),
            base_token_free: read_u64(data, 72),
            base_token_locked: read_u64(data, 80),
            quote_token_free: read_u64(data, 88),
            quote_token_locked: read_u64(data, 96),
            accumulated_rebates: read_u64(data, 104),
            accumulated_maker_quote_volume: read_u64(data, 112),
            accumulated_maker_base_volume: read_u64(data, 120),
            accumulated_taker_quote_volume: read_u64(data, 128),
            accumulated_taker_base_volume: read_u64(data, 136),
            number_of_orders: read_u32(data, 148),
        },
    )
}

/// The stored form of the header: 152 bytes, of which the four before
/// the order count are padding and zero.
pub fn pack_header(h: &UserAccountHeader) -> (out: Vec<u8>)
    ensures
        out@.len() == 152,
        header_stored_as(*h, out@),
        spec_u32_at(out@, 144) == 0,
{
    let mut out: Vec<u8> = Vec::new();
    put_u64(&mut out, tag_code(h.tag));
    put_address(&mut out, &h.market);
    put_address(&mut out, &h.owner);
    put_u64(&mut out, h.base_token_free);
    put_u64(&mut out, h.base_token_locked);
    put_u64(&mut out, h.quote_token_free);
    put_u64(&mut out, h.quote_token_locked);
    put_u64(&mut out, h.accumulated_rebates);
    put_u64(&mut out, h.accumulated_maker_quote_volume);
    put_u64(&mut out, h.accumulated_maker_base_volume);
    put_u64(&mut out, h.accumulated_taker_quote_volume);
    put_u64(&mut out, h.accumulated_taker_base_volume);
    put_u32(&mut out, 0);
    put_u32(&mut out, h.number_of_orders);
    proof {
        lemma_auto_spec_u64_to_from_le_bytes();
        lemma_auto_spec_u32_to_from_le_bytes();
        let d = out@;
        assert(d.subrange(0, 8) =~= spec_u64_to_le_bytes(spec_tag_code(h.tag)));
        assert(d.subrange(8, 40) =~= h.market@);
        assert(d.subrange(40, 72) =~= h.owner@);
        assert(d.subrange(72, 80) =~= spec_u64_to_le_bytes(h.base_token_free));
        assert(d.subrange(80, 88) =~= spec_u64_to_le_bytes(h.base_token_locked));
        assert(d.subrange(88, 96) =~= spec_u64_to_le_bytes(h.quote_token_free));
        assert(d.subrange(96, 104) =~= spec_u64_to_le_bytes(h.quote_token_locked));
        assert(d.subrange(104, 112) =~= spec_u64_to_le_bytes(h.accumulated_rebates));
        assert(d.subrange(112, 120) =~= spec_u64_to_le_bytes(h.accumulated_maker_quote_volume));
        assert(d.subrange(120, 128) =~= spec_u64_to_le_bytes(h.accumulated_maker_base_volume));
        assert(d.subrange(128, 136) =~= spec_u64_to_le_bytes(h.accumulated_taker_quote_volume));
        assert(d.subrange(136, 144) =~= spec_u64_to_le_bytes(h.accumulated_taker_base_volume));
        assert(d.subrange(144, 148) =~= spec_u32_to_le_bytes(0));
        assert(d.subrange(148, 152) =~= spec_u32_to_le_bytes(h.number_of_orders));
    }
    out
}

/// Bytes hold one header at most: two headers stored as the same bytes
/// agree in every field. So what `unpack_header` reads from the bytes that
/// `pack_header` wrote is the header that was written.
pub proof fn lemma_stored_header_is_unique(a: UserAccountHeader, b: UserAccountHeader, data: Seq<u8>)
    requires
        header_stored_as(a, data),
        header_stored_as(b, data),
    ensures
        a.tag == b.tag,
        a.market@ == b.market@,
        a.owner@ == b.owner@,
        a.base_token_free == b.base_token_free,
        a.base_token_locked == b.base_token_locked,
        a.quote_token_free == b.quote_token_free,
        a.quote_token_locked == b.quote_token_locked,
        a.accumulated_rebates == b.accumulated_rebates,
        a.accumulated_maker_quote_volume == b.accumulated_maker_quote_volume,
        a.accumulated_maker_base_volume == b.accumulated_maker_base_volume,
        a.accumulated_taker_quote_volume == b.accumulated_taker_quote_volume,
        a.accumulated_taker_base_volume == b.accumulated_taker_base_volume,
        a.number_of_orders == b.number_of_orders,
{
}

/// Bytes that follow do not change what is stored before them.
pub proof fn lemma_stored_header_survives(h: UserAccountHeader, data: Seq<u8>, more: Seq<u8>)
    requires
        header_stored_as(h, data),
    ensures
        header_stored_as(h, data + more),
{
    let all = data + more;
    assert(all.subrange(0, 8) =~= data.subrange(0, 8));
    assert(all.subrange(8, 40) =~= data.subrange(8, 40));
    assert(all.subrange(40, 72) =~= data.subrange(40, 72));
    assert(all.subrange(72, 80) =~= data.subrange(72, 80));
    assert(all.subrange(80, 88) =~= data.subrange(80, 88));
    assert(all.subrange(88, 96) =~= data.subrange(88, 96));
    assert(all.subrange(96, 104) =~= data.subrange(96, 104));
    assert(all.subrange(104, 112) =~= data.subrange(104, 112));
    assert(all.subrange(112, 120) =~= data.subrange(112, 120));
    assert(all.subrange(120, 128) =~= data.subrange(120, 128));
    assert(all.subrange(128, 136) =~= data.subrange(128, 136));
    assert(all.subrange(136, 144) =~= data.subrange(136, 144));
    assert(all.subrange(148, 152) =~= data.subrange(148, 152));
}

/// Bytes that follow do not change an order that is stored before them.
pub proof fn lemma_stored_order_survives(order: Order, data: Seq<u8>, offset: int, more: Seq<u8>)
    requires
        0 <= offset,
        order_stored_at(order, data, offset),
    ensures
        order_stored_at(order, data + more, offset),
{
    let all = data + more;
    assert(all.subrange(offset, offset + 16) =~= data.subrange(offset, offset + 16));
    assert(all.subrange(offset + 16, offset + 32) =~= data.subrange(offset + 16, offset + 32));
}

/// Whether the bytes can hold a user account: a header with the tag of a
/// user account, followed by whole order slots, no more than the order
/// counter can count and no fewer than it says are open.
pub open spec fn holds_user_account(data: Seq<u8>) -> bool {
    &&& data.len() >= 152
    &&& (data.len() - 152) % 32 == 0
    &&& (data.len() - 152) / 32 <= u32::MAX
    &&& spec_u64_at(data, 0) == 2
    &&& spec_u32_at(data, 148) <= (data.len() - 152) / 32
}

impl UserAccount {
    /// Loads the user account stored in the bytes of the account at `key`.
    pub fn from_buffer(key: Address, buf: &[u8]) -> (r: Result<UserAccount, ProgramFault>)
        ensures
            match r {
                Ok(a) => {
                    &&& holds_user_account(buf@)
                    &&& a.wf()
                    &&& a.key == key
                    &&& header_stored_as(a.header, buf@)
                    &&& a.spec_capacity() == (buf@.len() - 152) / 32
                    &&& forall|i: int|
                        0 <= i < a.spec_capacity() ==> order_stored_at(
                            #[trigger] a.slots()[i],
                            buf@,
                            152 + 32 * i,
                        )
                },
                Err(e) => e == ProgramFault::InvalidAccountData && !holds_user_account(buf@),
            },
    {
        let header = match unpack_header(buf) {
            Some(h) => h,
            None => {
                return Err(ProgramFault::InvalidAccountData);
            },
        };
        match header.tag {
            AccountTag::UserAccount => {},
            _ => {
                return Err(ProgramFault::InvalidAccountData);
            },
        }
        let len: usize = buf.len();
        let room: usize = len - 152;
        if room % 32 != 0 {
            return Err(ProgramFault::InvalidAccountData);
        }
        let capacity: usize = room / 32;
        if capacity > 0xffff_ffff || header.number_of_orders as usize > capacity {
            return Err(ProgramFault::InvalidAccountData);
        }
        let mut orders: Vec<Order> = Vec::new();
        let mut i: usize = 0;
        while i < capacity
            invariant
                0 <= i <= capacity,
                len == buf@.len(),
                152 + 32 * capacity == len,
                orders@.len() == i,
                forall|j: int|
                    0 <= j < i ==> order_stored_at(#[trigger] orders@[j], buf@, 152 + 32 * j),
            decreases capacity - i,
        {
            let offset: usize = 152 + 32 * i;
            let order = Order { id: read_u128(buf, offset), client_id: read_u128(buf, offset + 16) };
            orders.push(order);
            i += 1;
        }
        Ok(UserAccount { key, header, orders })
    }

    /// The stored form of the account: its header, then its order slots.
    pub fn to_buffer(&self) -> (out: Vec<u8>)
        ensures
            out@.len() == 152 + 32 * self.spec_capacity(),
            header_stored_as(self.header, out@),
            forall|i: int|
                0 <= i < self.spec_capacity() ==> order_stored_at(
                    #[trigger] self.slots()[i],
                    out@,
                    152 + 32 * i,
                ),
    {
        let mut out = pack_header(&self.header);
        let mut i: usize = 0;
        while i < self.orders.len()
            invariant
                0 <= i <= self.orders.len(),
                out@.len() == 152 + 32 * i,
                header_stored_as(self.header, out@),
                forall|j: int|
                    0 <= j < i ==> order_stored_at(#[trigger] self.slots()[j], out@, 152 + 32 * j),
            decreases self.orders.len() - i,
        {
            let ghost before = out@;
            let order = self.orders[i];
            put_u128(&mut out, order.id);
            put_u128(&mut out, order.client_id);
            proof {
                lemma_auto_spec_u128_to_from_le_bytes();
                let more = spec_u128_to_le_bytes(order.id) + spec_u128_to_le_bytes(
                    order.client_id,
                );
                assert(out@ =~= before + more);
                lemma_stored_header_survives(self.header, before, more);
                assert forall|j: int| 0 <= j < i implies order_stored_at(
                    #[trigger] self.slots()[j],
                    out@,
                    152 + 32 * j,
                ) by {
                    lemma_stored_order_survives(self.slots()[j], before, 152 + 32 * j, more);
                }
                let at = 152 + 32 * i;
                assert(out@.subrange(at, at + 16) =~= spec_u128_to_le_bytes(order.id));
                assert(out@.subrange(at + 16, at + 32) =~= spec_u128_to_le_bytes(
                    order.client_id,
                ));
            }
            i += 1;
        }
        out
    }
}

impl CallBackInfo {
    /// Reads the callback information from its stored form: the 32 bytes
    /// of the user account's address, then the fee byte.
    pub fn from_bytes(data: &[u8]) -> (r: Option<CallBackInfo>)
        ensures
            r is Some <==> data@.len() == 33,
            r is Some ==> r.unwrap().user_account@ == data@.subrange(0, 32) && r.unwrap().fee_tier
                == data@[32],
    {
        if data.len() != 33 {
            return None;
        }
        Some(CallBackInfo { user_account: read_address(data, 0), fee_tier: data[32] })
    }

    /// The stored form of the callback information: 33 bytes.
    pub fn to_bytes(&self) -> (out: Vec<u8>)
        ensures
            out@ == self.user_account@.push(self.fee_tier),
            out@.len() == 33,
    {
        let mut out = self.user_account.to_vec();
        out.push(self.fee_tier);
        out
    }
}

/// The number under which a fee schedule is stored.
pub open spec fn spec_fee_type_code(fee_type: MarketFeeType) -> u8 {
    match fee_type {
        MarketFeeType::Default => 0,
        MarketFeeType::Stable => 1,
    }
}

/// The bytes begin with the stored form of the market ledger.
pub open spec fn market_stored_as(m: DexState, data: Seq<u8>) -> bool {
    &&& data.len() >= 448
    &&& spec_u64_at(data, 0) == spec_tag_code(m.tag)
    &&& spec_address_at(data, 8) == m.base_mint@
    &&& spec_address_at(data, 40) == m.quote_mint@
    &&& spec_address_at(data, 72) == m.base_vault@
    &&& spec_address_at(data, 104) == m.quote_vault@
    &&& spec_address_at(data, 136) == m.orderbook@
    &&& spec_address_at(data, 168) == m.admin@
    &&& spec_u64_at(data, 200) as i64 == m.creation_timestamp
    &&& spec_u64_at(data, 208) == m.base_volume
    &&& spec_u64_at(data, 216) == m.quote_volume
    &&& spec_u64_at(data, 224) == m.accumulated_fees
    &&& spec_u64_at(data, 232) == m.min_base_order_size
    &&& spec_u64_at(data, 240) == m.royalties_bps
    &&& spec_u64_at(data, 248) == m.accumulated_royalties
    &&& spec_u64_at(data, 256) == m.base_currency_multiplier
    &&& spec_u64_at(data, 264) == m.quote_currency_multiplier
    &&& data[272] == m.signer_nonce
    &&& data[273] == spec_fee_type_code(m.fee_type)
    &&& spec_u64_at(data, 280) == m.fee_schedule.thresholds@[0]
    &&& spec_u64_at(data, 288) == m.fee_schedule.thresholds@[1]
    &&& spec_u64_at(data, 296) == m.fee_schedule.thresholds@[2]
    &&& spec_u64_at(data, 304) == m.fee_schedule.thresholds@[3]
    &&& spec_u64_at(data, 312) == m.fee_schedule.thresholds@[4]
    &&& spec_u64_at(data, 320) == m.fee_schedule.taker_rates@[0]
    &&& spec_u64_at(data, 328) == m.fee_schedule.taker_rates@[1]
    &&& spec_u64_at(data, 336) == m.fee_schedule.taker_rates@[2]
    &&& spec_u64_at(data, 344) == m.fee_schedule.taker_rates@[3]
    &&& spec_u64_at(data, 352) == m.fee_schedule.taker_rates@[4]
    &&& spec_u64_at(data, 360) == m.fee_schedule.taker_rates@[5]
    &&& spec_u64_at(data, 368) == m.fee_schedule.taker_rates@[6]
    &&& spec_u64_at(data, 376) == m.fee_schedule.taker_rates@[7]
    &&& spec_u64_at(data, 384) == m.fee_schedule.maker_rates@[0]
    &&& spec_u64_at(data, 392) == m.fee_schedule.maker_rates@[1]
    &&& spec_u64_at(data, 400) == m.fee_schedule.maker_rates@[2]
    &&& spec_u64_at(data, 408) == m.fee_schedule.maker_rates@[3]
    &&& spec_u64_at(data, 416) == m.fee_schedule.maker_rates@[4]
    &&& spec_u64_at(data, 424) == m.fee_schedule.maker_rates@[5]
    &&& spec_u64_at(data, 432) == m.fee_schedule.maker_rates@[6]
    &&& spec_u64_at(data, 440) == m.fee_schedule.maker_rates@[7]
}

/// Whether the bytes can hold a live market ledger.
pub open spec fn holds_market(data: Seq<u8>) -> bool {
    &&& data.len() >= 448
    &&& spec_u64_at(data, 0) == 1
    &&& data[273] <= 1
}

impl DexState {
    /// Loads the market ledger that the bytes begin with, its fee schedule
    /// included. Only a ledger with the tag of a live market is accepted.
    pub fn get(data: &[u8]) -> (r: Result<DexState, ProgramFault>)
        ensures
            match r {
                Ok(m) => holds_market(data@) && market_stored_as(m, data@) && m.tag
                    == AccountTag::DexState,
                Err(e) => e == ProgramFault::InvalidAccountData && !holds_market(data@),
            },
    {
        if data.len() < DEX_STATE_LEN {
            return Err(ProgramFault::InvalidAccountData);
        }
        if read_u64(data, 0) != 1 {
            return Err(ProgramFault::InvalidAccountData);
        }
        let fee_type = match data[273] {
            0 => MarketFeeType::Default,
            1 => MarketFeeType::Stable,
            _ => {
                return Err(ProgramFault::InvalidAccountData);
            },
        };
        Ok(
            DexState {
                tag: AccountTag::DexState,
                base_mint: read_address(data, 8),
                quote_mint: read_address(data, 40),
                base_vault: read_address(data, 72),
                quote_vault: read_address(data, 104),
                orderbook: read_address(data, 136),
                admin: read_address(data, 168),
                creation_timestamp: #[verifier::truncate] (read_u64(data, 200) as i64),
                base_volume: read_u64(data, 208),
                quote_volume: read_u64(data, 216),
                accumulated_fees: read_u64(data, 224),
                min_base_order_size: read_u64(data, 232),
                royalties_bps: read_u64(data, 240),
                accumulated_royalties: read_u64(data, 248),
                base_currency_multiplier: read_u64(data, 256),
                quote_currency_multiplier: read_u64(data, 264),
                signer_nonce: data[272],
                fee_type,
                fee_schedule: FeeSchedule {
                    thresholds: [
                        read_u64(data, 280),
                        read_u64(data, 288),
                        read_u64(data, 296),
                        read_u64(data, 304),
                        read_u64(data, 312),
                    ],
                    taker_rates: [
                        read_u64(data, 320),
                        read_u64(data, 328),
                        read_u64(data, 336),
                        read_u64(data, 344),
                        read_u64(data, 352),
                        read_u64(data, 360),
                        read_u64(data, 368),
                        read_u64(data, 376),
                    ],
                    maker_rates: [
                        read_u64(data, 384),
                        read_u64(data, 392),
                        read_u64(data, 400),
                        read_u64(data, 408),
                        read_u64(data, 416),
                        read_u64(data, 424),
                        read_u64(data, 432),
                        read_u64(data, 440),
                    ],
                },
            },
        )
    }

    /// The stored form of the market ledger: 448 bytes, of which the six
    /// after the fee type are padding and zero.
    pub fn to_bytes(&self) -> (out: Vec<u8>)
        ensures
            out@.len() == 448,
            market_stored_as(*self, out@),
            forall|i: int| 274 <= i < 280 ==> out@[i] == 0,
    {
        let mut out: Vec<u8> = Vec::new();
        put_u64(&mut out, tag_code(self.tag));
        put_address(&mut out, &self.base_mint);
        put_address(&mut out, &self.quote_mint);
        put_address(&mut out, &self.base_vault);
        put_address(&mut out, &self.quote_vault);
        put_address(&mut out, &self.orderbook);
        put_address(&mut out, &self.admin);
        put_u64(&mut out, #[verifier::truncate] (self.creation_timestamp as u64));
        put_u64(&mut out, self.base_volume);
        put_u64(&mut out, self.quote_volume);
        put_u64(&mut out, self.accumulated_fees);
        put_u64(&mut out, self.min_base_order_size);
        put_u64(&mut out, self.royalties_bps);
        put_u64(&mut out, self.accumulated_royalties);
        put_u64(&mut out, self.base_currency_multiplier);
        put_u64(&mut out, self.quote_currency_multiplier);
        out.push(self.signer_nonce);
        out.push(
            match self.fee_type {
                MarketFeeType::Default => 0,
                MarketFeeType::Stable => 1,
            },
        );
        out.push(0);
        out.push(0);
        out.push(0);
        out.push(0);
        out.push(0);
        out.push(0);
        put_u64(&mut out, self.fee_schedule.thresholds[0]);
        put_u64(&mut out, self.fee_schedule.thresholds[1]);
        put_u64(&mut out, self.fee_schedule.thresholds[2]);
        put_u64(&mut out, self.fee_schedule.thresholds[3]);
        put_u64(&mut out, self.fee_schedule.thresholds[4]);
        put_u64(&mut out, self.fee_schedule.taker_rates[0]);
        put_u64(&mut out, self.fee_schedule.taker_rates[1]);
        put_u64(&mut out, self.fee_schedule.taker_rates[2]);
        put_u64(&mut out, self.fee_schedule.taker_rates[3]);
        put_u64(&mut out, self.fee_schedule.taker_rates[4]);
        put_u64(&mut out, self.fee_schedule.taker_rates[5]);
        put_u64(&mut out, self.fee_schedule.taker_rates[6]);
        put_u64(&mut out, self.fee_schedule.taker_rates[7]);
        put_u64(&mut out, self.fee_schedule.maker_rates[0]);
        put_u64(&mut out, self.fee_schedule.maker_rates[1]);
        put_u64(&mut out, self.fee_schedule.maker_rates[2]);
        put_u64(&mut out, self.fee_schedule.maker_rates[3]);
        put_u64(&mut out, self.fee_schedule.maker_rates[4]);
        put_u64(&mut out, self.fee_schedule.maker_rates[5]);
        put_u64(&mut out, self.fee_schedule.maker_rates[6]);
        put_u64(&mut out, self.fee_schedule.maker_rates[7]);
        proof {
            lemma_auto_spec_u64_to_from_le_bytes();
            let d = out@;
            let t: i64 = self.creation_timestamp;
            let ts: u64 = #[verifier::truncate] (t as u64);
            assert((t as u64) as i64 == t) by (bit_vector);
            assert(d.subrange(0, 8) =~= spec_u64_to_le_bytes(spec_tag_code(self.tag)));
            assert(d.subrange(8, 40) =~= self.base_mint@);
            assert(d.subrange(40, 72) =~= self.quote_mint@);
            assert(d.subrange(72, 104) =~= self.base_vault@);
            assert(d.subrange(104, 136) =~= self.quote_vault@);
            assert(d.subrange(136, 168) =~= self.orderbook@);
            assert(d.subrange(168, 200) =~= self.admin@);
            assert(d.subrange(200, 208) =~= spec_u64_to_le_bytes(ts));
            assert(d.subrange(208, 216) =~= spec_u64_to_le_bytes(self.base_volume));
            assert(d.subrange(216, 224) =~= spec_u64_to_le_bytes(self.quote_volume));
            assert(d.subrange(224, 232) =~= spec_u64_to_le_bytes(self.accumulated_fees));
            assert(d.subrange(232, 240) =~= spec_u64_to_le_bytes(self.min_base_order_size));
            assert(d.subrange(240, 248) =~= spec_u64_to_le_bytes(self.royalties_bps));
            assert(d.subrange(248, 256) =~= spec_u64_to_le_bytes(self.accumulated_royalties));
            assert(d.subrange(256, 264) =~= spec_u64_to_le_bytes(self.base_currency_multiplier));
            assert(d.subrange(264, 272) =~= spec_u64_to_le_bytes(
                self.quote_currency_multiplier,
            ));
            assert(d.subrange(280, 288) =~= spec_u64_to_le_bytes(self.fee_schedule.thresholds@[0]));
            assert(d.subrange(288, 296) =~= spec_u64_to_le_bytes(self.fee_schedule.thresholds@[1]));
            assert(d.subrange(296, 304) =~= spec_u64_to_le_bytes(self.fee_schedule.thresholds@[2]));
            assert(d.subrange(304, 312) =~= spec_u64_to_le_bytes(self.fee_schedule.thresholds@[3]));
            assert(d.subrange(312, 320) =~= spec_u64_to_le_bytes(self.fee_schedule.thresholds@[4]));
            assert(d.subrange(320, 328) =~= spec_u64_to_le_bytes(self.fee_schedule.taker_rates@[0]));
            assert(d.subrange(328, 336) =~= spec_u64_to_le_bytes(self.fee_schedule.taker_rates@[1]));
            assert(d.subrange(336, 344) =~= spec_u64_to_le_bytes(self.fee_schedule.taker_rates@[2]));
            assert(d.subrange(344, 352) =~= spec_u64_to_le_bytes(self.fee_schedule.taker_rates@[3]));
            assert(d.subrange(352, 360) =~= spec_u64_to_le_bytes(self.fee_schedule.taker_rates@[4]));
            assert(d.subrange(360, 368) =~= spec_u64_to_le_bytes(self.fee_schedule.taker_rates@[5]));
            assert(d.subrange(368, 376) =~= spec_u64_to_le_bytes(self.fee_schedule.taker_rates@[6]));
            assert(d.subrange(376, 384) =~= spec_u64_to_le_bytes(self.fee_schedule.taker_rates@[7]));
            assert(d.subrange(384, 392) =~= spec_u64_to_le_bytes(self.fee_schedule.maker_rates@[0]));
            assert(d.subrange(392, 400) =~= spec_u64_to_le_bytes(self.fee_schedule.maker_rates@[1]));
            assert(d.subrange(400, 408) =~= spec_u64_to_le_bytes(self.fee_schedule.maker_rates@[2]));
            assert(d.subrange(408, 416) =~= spec_u64_to_le_bytes(self.fee_schedule.maker_rates@[3]));
            assert(d.subrange(416, 424) =~= spec_u64_to_le_bytes(self.fee_schedule.maker_rates@[4]));
            assert(d.subrange(424, 432) =~= spec_u64_to_le_bytes(self.fee_schedule.maker_rates@[5]));
            assert(d.subrange(432, 440) =~= spec_u64_to_le_bytes(self.fee_schedule.maker_rates@[6]));
            assert(d.subrange(440, 448) =~= spec_u64_to_le_bytes(self.fee_schedule.maker_rates@[7]));
        }
        out
    }
}

} // verus!
