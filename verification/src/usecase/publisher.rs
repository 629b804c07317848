use vstd::prelude::*;

use crate::domain::publisher::Publisher;
use crate::domain::vo::{PublisherName, MAX_TEXT_LEN};
use crate::mocks::{publisher_pub_ids_distinct, has_publisher, has_publisher_id, has_publisher_name, MockPublisherRepository};
use crate::stamp;
use crate::usecase::error::ApiError;

verus! {

/// The request body for creating a publisher.
pub struct CreateDto {
    pub name: String,
}

/// The request body for renaming a publisher.
pub struct UpdateDto {
    pub name: String,
}

/// The response view of a publisher: the external id and the name. No
/// internal id ever crosses this boundary.
#[derive(Debug)]
pub struct ResponseDto {
    pub pub_id: u128,
    pub name: String,
}

/// Whether `d` is the response view of the stored publisher `p`.
pub open spec fn publisher_response_of(p: Publisher, d: ResponseDto) -> bool {
    &&& d.pub_id == p.pub_id
    &&& d.name@ == p.name@
}

/// Whether `p` is the row a successful create of `dto` leaves
/// behind, under external id `pub_id` and internal id `id`.
pub open spec fn created_publisher(dto: CreateDto, pub_id: u128, id: i32, p: Publisher) -> bool {
    &&& p.id == id
    &&& p.pub_id == pub_id
    &&& p.name@ == dto.name@
    &&& p.created_at == p.updated_at
    &&& p.created_by@ == "test player"@
    &&& p.updated_by == p.created_by
}

/// Whether `p` is the row a successful update of `s0` by `dto`
/// leaves behind: a new name and update stamp over an unchanged
/// identity and creation audit.
pub open spec fn updated_publisher(p0: Publisher, dto: UpdateDto, p: Publisher) -> bool {
    &&& p.id == p0.id
    &&& p.pub_id == p0.pub_id
    &&& p.name@ == dto.name@
    &&& p.created_at == p0.created_at
    &&& p.created_by == p0.created_by
    &&& p.updated_by@ == "test player"@
}

/// The publisher use-case service, owning its repository.
pub struct Service {
    pub repo: MockPublisherRepository,
}

impl Service {
    /// A service over the given repository.
    pub fn new(repo: MockPublisherRepository) -> (s: Self)
        ensures
            s.repo == repo,
    {
        Service { repo }
    }

    /// The response views of every stored publisher, in insertion order.
    pub fn get_all(&self) -> (r: Result<Vec<ResponseDto>, ApiError>)
        ensures
            r is Ok,
            r matches Ok(ds) ==> ds@.len() == self.repo.items@.len() && forall|i: int|
                0 <= i < ds@.len() ==> publisher_response_of(self.repo.items@[i], #[trigger] ds@[i]),
    {
        let mut out: Vec<ResponseDto> = Vec::new();
        let mut i: usize = 0;
        while i < self.repo.items.len()
            invariant
                i <= self.repo.items.len(),
                out@.len() == i,
                forall|k: int|
                    0 <= k < i ==> publisher_response_of(self.repo.items@[k], #[trigger] out@[k]),
            decreases self.repo.items.len() - i,
        {
            let d = ResponseDto {
                pub_id: self.repo.items[i].pub_id,
                name: self.repo.items[i].name.clone_value(),
            };
            out.push(d);
            i = i + 1;
        }
        Ok(out)
    }

    /// The response view of the publisher with the given external id, or
    /// not-found when no such publisher is stored.
    pub fn get(&self, pub_id: u128) -> (r: Result<ResponseDto, ApiError>)
        ensures
            r is Ok <==> has_publisher(self.repo.items@, pub_id),
            r matches Ok(d) ==> d.pub_id == pub_id && exists|i: int|
                0 <= i < self.repo.items@.len() && (#[trigger] self.repo.items@[i]).pub_id
                    == pub_id && publisher_response_of(self.repo.items@[i], d),
            r matches Err(e) ==> e is NotFound,
    {
        match self.repo.find_by_pub_id(pub_id) {
            Some(p) => Ok(ResponseDto { pub_id: p.pub_id, name: p.name.clone_value() }),
            None => Err(ApiError::NotFound("Publisher not found".to_owned())),
        }
    }

    /// Validates the name, creates the publisher under a fresh external id
    /// and persists it. The name is rejected as a domain error before
    /// anything is written; a persistence conflict (the drawn
    /// external id or the name already present) is reported as a
    /// database error with the store unchanged.
    pub fn create(&mut self, dto: CreateDto) -> (r: Result<ResponseDto, ApiError>)
        requires
            old(self).repo.wf(),
        ensures
            final(self).repo.wf(),
            r is Err ==> final(self).repo == old(self).repo,
            dto.name@.len() > MAX_TEXT_LEN ==> (r matches Err(ApiError::PublisherDomainError(e))
                && e is InvalidFormat),
            r matches Ok(d) ==> {
                &&& dto.name@.len() <= MAX_TEXT_LEN
                &&& d.name@ == dto.name@
                &&& !has_publisher(old(self).repo.items@, d.pub_id)
                &&& final(self).repo.items@.len() == old(self).repo.items@.len() + 1
                &&& final(self).repo.items@ == old(self).repo.items@.push(
                    final(self).repo.items@.last(),
                )
                &&& created_publisher(dto, d.pub_id, old(self).repo.next_id, final(self).repo.items@.last())
                &&& publisher_response_of(final(self).repo.items@.last(), d)
            },
    {
        let pub_id = stamp::new_external_id();
        self.create_with_id(dto, pub_id)
    }

    /// The create flow once the fresh external id is fixed: succeeds
    /// exactly when the name is valid, neither the external id nor
    /// the name is already stored, and the id sequence is not used
    /// up.
    pub fn create_with_id(&mut self, dto: CreateDto, pub_id: u128) -> (r: Result<
        ResponseDto,
        ApiError,
    >)
        requires
            old(self).repo.wf(),
        ensures
            final(self).repo.wf(),
            r is Err ==> final(self).repo == old(self).repo,
            r is Ok <==> {
                &&& dto.name@.len() <= MAX_TEXT_LEN
                &&& !has_publisher(old(self).repo.items@, pub_id)
                &&& !has_publisher_name(old(self).repo.items@, dto.name@)
                &&& old(self).repo.next_id < i32::MAX
            },
            dto.name@.len() > MAX_TEXT_LEN ==> (r matches Err(ApiError::PublisherDomainError(e))
                && e is InvalidFormat),
            dto.name@.len() <= MAX_TEXT_LEN && r is Err ==> (r matches Err(
                ApiError::DatabaseError,
            )),
            r matches Ok(d) ==> {
                &&& d.pub_id == pub_id
                &&& d.name@ == dto.name@
                &&& final(self).repo.items@ == old(self).repo.items@.push(
                    final(self).repo.items@.last(),
                )
                &&& final(self).repo.items@.len() == old(self).repo.items@.len() + 1
                &&& created_publisher(dto, pub_id, old(self).repo.next_id, final(self).repo.items@.last())
                &&& publisher_response_of(final(self).repo.items@.last(), d)
            },
    {
        let name = match PublisherName::new(dto.name) {
            Ok(n) => n,
            Err(e) => {
                return Err(ApiError::PublisherDomainError(e));
            },
        };
        let publisher = Publisher::new(pub_id, name, "test player".to_owned());
        match self.repo.create(publisher) {
            Ok(created) => Ok(
                ResponseDto { pub_id: created.pub_id, name: created.name.clone_value() },
            ),
            Err(_) => Err(ApiError::DatabaseError),
        }
    }

    /// Loads the publisher by external id, validates the new name, applies
    /// the rename and persists it. A missed lookup is not-found, an
    /// over-long name is a domain error, and a name collision with a
    /// different publisher is a database error; on any failure the store
    /// is unchanged.
    pub fn update(&mut self, pub_id: u128, dto: UpdateDto) -> (r: Result<ResponseDto, ApiError>)
        requires
            old(self).repo.wf(),
        ensures
            final(self).repo.wf(),
            r is Err ==> final(self).repo == old(self).repo,
            r is Ok <==> {
                &&& has_publisher(old(self).repo.items@, pub_id)
                &&& dto.name@.len() <= MAX_TEXT_LEN
                &&& forall|j: int|
                    0 <= j < old(self).repo.items@.len() && (#[trigger] old(
                        self,
                    ).repo.items@[j]).pub_id != pub_id ==> old(self).repo.items@[j].name@
                        != dto.name@
            },
            !has_publisher(old(self).repo.items@, pub_id) ==> (r matches Err(e) && e is NotFound),
            has_publisher(old(self).repo.items@, pub_id) && dto.name@.len() > MAX_TEXT_LEN
                ==> (r matches Err(ApiError::PublisherDomainError(e)) && e is InvalidFormat),
            r matches Ok(d) ==> d.pub_id == pub_id && d.name@ == dto.name@ && exists|i: int|
                {
                    &&& 0 <= i < old(self).repo.items@.len()
                    &&& (#[trigger] old(self).repo.items@[i]).pub_id == pub_id
                    &&& final(self).repo.items@ == old(self).repo.items@.update(
                        i,
                        final(self).repo.items@[i],
                    )
                    &&& updated_publisher(old(self).repo.items@[i], dto, final(self).repo.items@[i])
                },
    {
        let mut publisher = match self.repo.find_by_pub_id(pub_id) {
            Some(p) => p,
            None => {
                return Err(ApiError::NotFound("Publisher not found".to_owned()));
            },
        };
        let name = match PublisherName::new(dto.name) {
            Ok(n) => n,
            Err(e) => {
                return Err(ApiError::PublisherDomainError(e));
            },
        };
        match publisher.update(name, "test player".to_owned()) {
            Ok(()) => (),
            Err(e) => {
                return Err(ApiError::PublisherDomainError(e));
            },
        }
        match self.repo.update(publisher) {
            Ok(updated) => Ok(
                ResponseDto { pub_id: updated.pub_id, name: updated.name.clone_value() },
            ),
            Err(_) => Err(ApiError::DatabaseError),
        }
    }

    /// Loads the publisher by external id and removes it; a missed lookup
    /// is not-found. After a successful delete no publisher with this
    /// external id remains.
    pub fn delete(&mut self, pub_id: u128) -> (r: Result<(), ApiError>)
        requires
            old(self).repo.wf(),
        ensures
            final(self).repo.wf(),
            r is Err ==> final(self).repo == old(self).repo,
            r is Ok <==> has_publisher(old(self).repo.items@, pub_id),
            r matches Err(e) ==> e is NotFound,
            r is Ok ==> exists|i: int|
                {
                    &&& 0 <= i < old(self).repo.items@.len()
                    &&& (#[trigger] old(self).repo.items@[i]).pub_id == pub_id
                    &&& final(self).repo.items@ == old(self).repo.items@.remove(i)
                },
            r is Ok ==> !has_publisher(final(self).repo.items@, pub_id),
    {
        let publisher = match self.repo.find_by_pub_id(pub_id) {
            Some(p) => p,
            None => {
                return Err(ApiError::NotFound("Publisher not found".to_owned()));
            },
        };
        let ghost pre = self.repo.items@;
        proof {
            let j = choose|j: int| 0 <= j < pre.len() && pre[j] == publisher;
            assert(pre[j].id == publisher.id);
            assert(has_publisher_id(pre, publisher.id));
        }
        match self.repo.delete(publisher.id) {
            Ok(()) => {
                proof {
                    let j = choose|j: int| 0 <= j < pre.len() && pre[j] == publisher;
                    let i = choose|i: int|
                        0 <= i < pre.len() && pre[i].id == publisher.id && self.repo.items@
                            == pre.remove(i);
                    assert(i == j);
                    assert forall|k: int|
                        0 <= k < self.repo.items@.len() implies (#[trigger] self.repo.items@[k]).pub_id
                        != pub_id by {
                        if k < i {
                            assert(self.repo.items@[k] == pre[k]);
                        } else {
                            assert(self.repo.items@[k] == pre[k + 1]);
                        }
                    }
                }
                Ok(())
            },
            Err(_) => Err(ApiError::InternalServerError),
        }
    }
}


/// Law: once a delete has removed the row carrying an external id,
/// no publisher with that id remains, so a fetch by the same id misses.
/// The premises are what a successful delete ensures of a
/// well-formed store.
pub proof fn lemma_delete_then_get(pre: Seq<Publisher>, post: Seq<Publisher>, pub_id: u128, i: int)
    requires
        publisher_pub_ids_distinct(pre),
        0 <= i < pre.len(),
        pre[i].pub_id == pub_id,
        post == pre.remove(i),
    ensures
        !has_publisher(post, pub_id),
{
    assert forall|k: int| 0 <= k < post.len() implies (#[trigger] post[k]).pub_id != pub_id by {
        if k < i {
            assert(post[k] == pre[k]);
        } else {
            assert(post[k] == pre[k + 1]);
        }
    }
}

} // verus!
