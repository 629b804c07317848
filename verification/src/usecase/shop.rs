use vstd::prelude::*;

use crate::domain::shop::Shop;
use crate::domain::vo::{ShopName, MAX_TEXT_LEN};
use crate::mocks::{shop_pub_ids_distinct, has_shop, has_shop_id, has_shop_name, MockShopRepository};
use crate::stamp;
use crate::usecase::error::ApiError;

verus! {

/// The request body for creating a shop.
pub struct CreateDto {
    pub name: String,
}

/// The request body for renaming a shop.
pub struct UpdateDto {
    pub name: String,
}

/// The response view of a shop: the external id and the name. No
/// internal id ever crosses this boundary.
#[derive(Debug)]
pub struct ResponseDto {
    pub pub_id: u128,
    pub name: String,
}

/// Whether `d` is the response view of the stored shop `s`.
pub open spec fn shop_response_of(s: Shop, d: ResponseDto) -> bool {
    &&& d.pub_id == s.pub_id
    &&& d.name@ == s.name@
}

/// Whether `s` is the row a successful create of `dto` leaves
/// behind, under external id `pub_id` and internal id `id`.
pub open spec fn created_shop(dto: CreateDto, pub_id: u128, id: i32, s: Shop) -> bool {
    &&& s.id == id
    &&& s.pub_id == pub_id
    &&& s.name@ == dto.name@
    &&& s.created_at == s.updated_at
    &&& s.created_by@ == "test player"@
    &&& s.updated_by == s.created_by
}

/// Whether `s` is the row a successful update of `s0` by `dto`
/// leaves behind: a new name and update stamp over an unchanged
/// identity and creation audit.
pub open spec fn updated_shop(s0: Shop, dto: UpdateDto, s: Shop) -> bool {
    &&& s.id == s0.id
    &&& s.pub_id == s0.pub_id
    &&& s.name@ == dto.name@
    &&& s.created_at == s0.created_at
    &&& s.created_by == s0.created_by
    &&& s.updated_by@ == "test player"@
}

/// The shop use-case service, owning its repository.
pub struct Service {
    pub repo: MockShopRepository,
}

impl Service {
    /// A service over the given repository.
    pub fn new(repo: MockShopRepository) -> (s: Self)
        ensures
            s.repo == repo,
    {
        Service { repo }
    }

    /// The response views of every stored shop, in insertion order.
    pub fn get_all(&self) -> (r: Result<Vec<ResponseDto>, ApiError>)
        ensures
            r is Ok,
            r matches Ok(ds) ==> ds@.len() == self.repo.items@.len() && forall|i: int|
                0 <= i < ds@.len() ==> shop_response_of(self.repo.items@[i], #[trigger] ds@[i]),
    {
        let mut out: Vec<ResponseDto> = Vec::new();
        let mut i: usize = 0;
        while i < self.repo.items.len()
            invariant
                i <= self.repo.items.len(),
                out@.len() == i,
                forall|k: int|
                    0 <= k < i ==> shop_response_of(self.repo.items@[k], #[trigger] out@[k]),
            decreases self.repo.items.len() - i,
        {
            let d = ResponseDto {
                pub_id: self.repo.items[i].pub_id,
                name: self.repo.items[i].name.clone_value(),
            };
            out.push(d);
            i = i + 1;
        }
        Ok(out)
    }

    /// The response view of the shop with the given external id, or
    /// not-found when no such shop is stored.
    pub fn get(&self, pub_id: u128) -> (r: Result<ResponseDto, ApiError>)
        ensures
            r is Ok <==> has_shop(self.repo.items@, pub_id),
            r matches Ok(d) ==> d.pub_id == pub_id && exists|i: int|
                0 <= i < self.repo.items@.len() && (#[trigger] self.repo.items@[i]).pub_id
                    == pub_id && shop_response_of(self.repo.items@[i], d),
            r matches Err(e) ==> e is NotFound,
    {
        match self.repo.find_by_pub_id(pub_id) {
            Some(s) => Ok(ResponseDto { pub_id: s.pub_id, name: s.name.clone_value() }),
            None => Err(ApiError::NotFound("Shop not found".to_owned())),
        }
    }

    /// Validates the name, creates the shop under a fresh external id
    /// and persists it. The name is rejected as a domain error before
    /// anything is written; a persistence conflict (the drawn
    /// external id or the name already present) is reported as a
    /// database error with the store unchanged.
    pub fn create(&mut self, dto: CreateDto) -> (r: Result<ResponseDto, ApiError>)
        requires
            old(self).repo.wf(),
        ensures
            final(self).repo.wf(),
            r is Err ==> final(self).repo == old(self).repo,
            dto.name@.len() > MAX_TEXT_LEN ==> (r matches Err(ApiError::ShopDomainError(e))
                && e is InvalidFormat),
            r matches Ok(d) ==> {
                &&& dto.name@.len() <= MAX_TEXT_LEN
                &&& d.name@ == dto.name@
                &&& !has_shop(old(self).repo.items@, d.pub_id)
                &&& final(self).repo.items@.len() == old(self).repo.items@.len() + 1
                &&& final(self).repo.items@ == old(self).repo.items@.push(
                    final(self).repo.items@.last(),
                )
                &&& created_shop(dto, d.pub_id, old(self).repo.next_id, final(self).repo.items@.last())
                &&& shop_response_of(final(self).repo.items@.last(), d)
            },
    {
        let pub_id = stamp::new_external_id();
        self.create_with_id(dto, pub_id)
    }

    /// The create flow once the fresh external id is fixed: succeeds
    /// exactly when the name is valid, neither the external id nor
    /// the name is already stored, and the id sequence is not used
    /// up.
    pub fn create_with_id(&mut self, dto: CreateDto, pub_id: u128) -> (r: Result<
        ResponseDto,
        ApiError,
    >)
        requires
            old(self).repo.wf(),
        ensures
            final(self).repo.wf(),
            r is Err ==> final(self).repo == old(self).repo,
            r is Ok <==> {
                &&& dto.name@.len() <= MAX_TEXT_LEN
                &&& !has_shop(old(self).repo.items@, pub_id)
                &&& !has_shop_name(old(self).repo.items@, dto.name@)
                &&& old(self).repo.next_id < i32::MAX
            },
            dto.name@.len() > MAX_TEXT_LEN ==> (r matches Err(ApiError::ShopDomainError(e))
                && e is InvalidFormat),
            dto.name@.len() <= MAX_TEXT_LEN && r is Err ==> (r matches Err(
                ApiError::DatabaseError,
            )),
            r matches Ok(d) ==> {
                &&& d.pub_id == pub_id
                &&& d.name@ == dto.name@
                &&& final(self).repo.items@ == old(self).repo.items@.push(
                    final(self).repo.items@.last(),
                )
                &&& final(self).repo.items@.len() == old(self).repo.items@.len() + 1
                &&& created_shop(dto, pub_id, old(self).repo.next_id, final(self).repo.items@.last())
                &&& shop_response_of(final(self).repo.items@.last(), d)
            },
    {
        let name = match ShopName::new(dto.name) {
            Ok(n) => n,
            Err(e) => {
                return Err(ApiError::ShopDomainError(e));
            },
        };
        let shop = Shop::new(pub_id, name, "test player".to_owned());
        match self.repo.create(shop) {
            Ok(created) => Ok(
                ResponseDto { pub_id: created.pub_id, name: created.name.clone_value() },
            ),
            Err(_) => Err(ApiError::DatabaseError),
        }
    }

    /// Loads the shop by external id, validates the new name, applies
    /// the rename and persists it. A missed lookup is not-found, an
    /// over-long name is a domain error, and a name collision with a
    /// different shop is a database error; on any failure the store
    /// is unchanged.
    pub fn update(&mut self, pub_id: u128, dto: UpdateDto) -> (r: Result<ResponseDto, ApiError>)
        requires
            old(self).repo.wf(),
        ensures
            final(self).repo.wf(),
            r is Err ==> final(self).repo == old(self).repo,
            r is Ok <==> {
                &&& has_shop(old(self).repo.items@, pub_id)
                &&& dto.name@.len() <= MAX_TEXT_LEN
                &&& forall|j: int|
                    0 <= j < old(self).repo.items@.len() && (#[trigger] old(
                        self,
                    ).repo.items@[j]).pub_id != pub_id ==> old(self).repo.items@[j].name@
                        != dto.name@
            },
            !has_shop(old(self).repo.items@, pub_id) ==> (r matches Err(e) && e is NotFound),
            has_shop(old(self).repo.items@, pub_id) && dto.name@.len() > MAX_TEXT_LEN
                ==> (r matches Err(ApiError::ShopDomainError(e)) && e is InvalidFormat),
            r matches Ok(d) ==> d.pub_id == pub_id && d.name@ == dto.name@ && exists|i: int|
                {
                    &&& 0 <= i < old(self).repo.items@.len()
                    &&& (#[trigger] old(self).repo.items@[i]).pub_id == pub_id
                    &&& final(self).repo.items@ == old(self).repo.items@.update(
                        i,
                        final(self).repo.items@[i],
                    )
                    &&& updated_shop(old(self).repo.items@[i], dto, final(self).repo.items@[i])
                },
    {
        let mut shop = match self.repo.find_by_pub_id(pub_id) {
            Some(s) => s,
            None => {
                return Err(ApiError::NotFound("Shop not found".to_owned()));
            },
        };
        let name = match ShopName::new(dto.name) {
            Ok(n) => n,
            Err(e) => {
                return Err(ApiError::ShopDomainError(e));
            },
        };
        match shop.update(name, "test player".to_owned()) {
            Ok(()) => (),
            Err(e) => {
                return Err(ApiError::ShopDomainError(e));
            },
        }
        match self.repo.update(shop) {
            Ok(updated) => Ok(
                ResponseDto { pub_id: updated.pub_id, name: updated.name.clone_value() },
            ),
            Err(_) => Err(ApiError::DatabaseError),
        }
    }

    /// Loads the shop by external id and removes it; a missed lookup
    /// is not-found. After a successful delete no shop with this
    /// external id remains.
    pub fn delete(&mut self, pub_id: u128) -> (r: Result<(), ApiError>)
        requires
            old(self).repo.wf(),
        ensures
            final(self).repo.wf(),
            r is Err ==> final(self).repo == old(self).repo,
            r is Ok <==> has_shop(old(self).repo.items@, pub_id),
            r matches Err(e) ==> e is NotFound,
            r is Ok ==> exists|i: int|
                {
                    &&& 0 <= i < old(self).repo.items@.len()
                    &&& (#[trigger] old(self).repo.items@[i]).pub_id == pub_id
                    &&& final(self).repo.items@ == old(self).repo.items@.remove(i)
                },
            r is Ok ==> !has_shop(final(self).repo.items@, pub_id),
    {
        let shop = match self.repo.find_by_pub_id(pub_id) {
            Some(s) => s,
            None => {
                return Err(ApiError::NotFound("Shop not found".to_owned()));
            },
        };
        let ghost pre = self.repo.items@;
        proof {
            let j = choose|j: int| 0 <= j < pre.len() && pre[j] == shop;
            assert(pre[j].id == shop.id);
            assert(has_shop_id(pre, shop.id));
        }
        match self.repo.delete(shop.id) {
            Ok(()) => {
                proof {
                    let j = choose|j: int| 0 <= j < pre.len() && pre[j] == shop;
                    let i = choose|i: int|
                        0 <= i < pre.len() && pre[i].id == shop.id && self.repo.items@
                            == pre.remove(i);
                    assert(i == j);
                    assert forall|k: int|
                        0 <= k < self.repo.items@.len() implies (#[trigger] self.repo.items@[k]).pub_id
                        != pub_id by {
                        if k < i {
                            assert(self.repo.items@[k] == pre[k]);
                        } else {
                            assert(self.repo.items@[k] == pre[k + 1]);
                        }
                    }
                }
                Ok(())
            },
            Err(_) => Err(ApiError::InternalServerError),
        }
    }
}


/// Law: once a delete has removed the row carrying an external id,
/// no shop with that id remains, so a fetch by the same id misses.
/// The premises are what a successful delete ensures of a
/// well-formed store.
pub proof fn lemma_delete_then_get(pre: Seq<Shop>, post: Seq<Shop>, pub_id: u128, i: int)
    requires
        shop_pub_ids_distinct(pre),
        0 <= i < pre.len(),
        pre[i].pub_id == pub_id,
        post == pre.remove(i),
    ensures
        !has_shop(post, pub_id),
{
    assert forall|k: int| 0 <= k < post.len() implies (#[trigger] post[k]).pub_id != pub_id by {
        if k < i {
            assert(post[k] == pre[k]);
        } else {
            assert(post[k] == pre[k + 1]);
        }
    }
}

} // verus!
