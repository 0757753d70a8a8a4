//! The bucket pages around the lobby: the list of buckets, creating a
//! bucket, the drop-down panes, managing who may join a bucket, and the
//! participants of a bucket.

use vstd::prelude::*;
use crate::datatypes::{BucketData, BucketUsersData, UserData};
use crate::fetch::FetchResponse;
use crate::ids::{uuid_text, BucketUuid, UserUuid};
use crate::input::InputState;
use crate::loadable::{Loadable, Uploadable};
use crate::requests::{lemma_membership_paths, BucketRequest, NewBucketRequest};

verus! {

/// The form that creates a bucket.
#[derive(Debug)]
pub struct NewBucket {
    pub name: InputState,
}

impl Default for NewBucket {
    fn default() -> (r: Self)
        ensures
            r.name matches InputState::Unvalidated { text } && text@ == Seq::<char>::empty(),
    {
        NewBucket { name: InputState::default() }
    }
}

impl Clone for NewBucket {
    fn clone(&self) -> (r: Self)
        ensures
            r == *self,
    {
        NewBucket { name: self.name.clone() }
    }
}

/// The reason a bucket name is refused.
pub open spec fn empty_bucket_name_message() -> Seq<char> {
    "Bucket Name must have some text."@
}

impl NewBucket {
    /// A bucket name is acceptable when it has some text.
    pub fn validate_name(name: String) -> (r: Result<String, String>)
        ensures
            name@.len() == 0 ==> (r matches Err(e) && e@ == empty_bucket_name_message()),
            name@.len() > 0 ==> r == Ok::<String, String>(name),
    {
        if name.as_str().is_empty() {
            Err(String::from_str("Bucket Name must have some text."))
        } else {
            Ok(name)
        }
    }

    /// The request that creates the bucket, which is public; refused when
    /// the name is empty.
    pub fn validate(&self) -> (r: Result<NewBucketRequest, String>)
        ensures
            self.name.text()@.len() == 0 ==> (r matches Err(e) && e@
                == empty_bucket_name_message()),
            self.name.text()@.len() > 0 ==> (r matches Ok(req) && req.bucket_name
                == self.name.text() && req.is_public),
    {
        match Self::validate_name(self.name.inner_text()) {
            Err(e) => Err(e),
            Ok(_) => Ok(NewBucketRequest { bucket_name: self.name.inner_text(), is_public: true }),
        }
    }
}

/// Which drop-down pane of the bucket page is open.
#[derive(Clone, Copy, Debug, PartialEq, Eq, Structural)]
pub enum DropDownPaneVariant {
    ManageBuckets,
    ViewParticipants,
    Closed,
}

/// The bucket page that a route shows.
#[derive(Clone, Copy, Debug, PartialEq, Eq, Structural)]
pub enum BucketRoute {
    BucketList,
    Bucket { bucket_uuid: BucketUuid },
    Create,
}

impl Default for BucketRoute {
    fn default() -> (r: Self)
        ensures
            r == BucketRoute::BucketList,
    {
        BucketRoute::BucketList
    }
}

/// A bucket the user may enter.
#[derive(Debug)]
pub struct ApprovedBucket(pub BucketData);

/// A public bucket the user may ask to join.
#[derive(Debug)]
pub struct PublicBucket(pub BucketData);

/// The lists of buckets shown on the bucket page.
#[derive(Debug)]
pub struct BucketLists {
    pub approved_buckets: Loadable<Vec<ApprovedBucket>>,
    pub public_buckets: Loadable<Vec<PublicBucket>>,
    pub request_to_join_bucket_action: Uploadable<()>,
}

impl Default for BucketLists {
    fn default() -> (r: Self)
        ensures
            (r.approved_buckets is Unloaded),
            (r.public_buckets is Unloaded),
            r.request_to_join_bucket_action == Uploadable::NotUploaded(()),
    {
        BucketLists {
            approved_buckets: Loadable::Unloaded,
            public_buckets: Loadable::Unloaded,
            request_to_join_bucket_action: Uploadable::NotUploaded(()),
        }
    }
}

/// What the bucket page shows.
#[derive(Debug)]
pub enum BucketPage {
    BucketList(BucketLists),
    Bucket(Loadable<BucketData>),
    Create(Uploadable<NewBucket>),
}

/// What the bucket page asks of the outside world.
#[derive(Debug)]
pub enum BucketCommand {
    /// Send this request.
    Fetch(BucketRequest),
    /// Go to the page at this path.
    ChangeRoute(String),
}

/// What the bucket page is told.
#[derive(Debug)]
pub enum BucketModelMsg {
    NavigateToBucket { bucket_uuid: BucketUuid },
    NavigateToCreateBucket,
    HandleGetPublicBucketsResponse(FetchResponse<Vec<BucketData>>),
    HandleGetApprovedBucketsResponse(FetchResponse<Vec<BucketData>>),
    HandleGetBucketResponse(FetchResponse<BucketData>),
    HandleJoinBucketResponse(FetchResponse<()>),
    CreateBucket,
    UpdateBucketName(InputState),
    ChangeDropDownState(DropDownPaneVariant),
    RequestToJoinBucket { bucket_uuid: BucketUuid },
    NoOp,
}

/// The bucket page's state.
#[derive(Debug)]
pub struct BucketModel {
    pub bucket_page: BucketPage,
    pub drop_down_state: DropDownPaneVariant,
}

/// The bucket lists as `response` leaves them, each bucket wrapped by `wrap`.
pub open spec fn loaded_list<T, U>(response: FetchResponse<Vec<T>>, l: Loadable<Vec<U>>, wrap: spec_fn(T) -> U) -> bool {
    match response {
        FetchResponse::Success(v) => l matches Loadable::Loaded(w) && w@ == v@.map_values(wrap),
        FetchResponse::Error(_) => l == Loadable::<Vec<U>>::Failed(None),
        FetchResponse::Started => l == Loadable::<Vec<U>>::Loading,
    }
}

/// The page a route opens, and the requests it sends: the two bucket
/// lists, the one bucket, or nothing for the creation form.
pub open spec fn opened_page(route: BucketRoute, page: BucketPage, commands: Seq<BucketCommand>) -> bool {
    match route {
        BucketRoute::BucketList => {
            &&& page matches BucketPage::BucketList(lists) && (lists.approved_buckets is Unloaded)
                && (lists.public_buckets is Unloaded)
            &&& commands == seq![
                BucketCommand::Fetch(BucketRequest::GetPublicBuckets),
                BucketCommand::Fetch(BucketRequest::GetBucketsForUser),
            ]
        },
        BucketRoute::Bucket { bucket_uuid } => {
            &&& page matches BucketPage::Bucket(l) && (l is Unloaded)
            &&& commands == seq![BucketCommand::Fetch(BucketRequest::GetBucket { bucket_uuid })]
        },
        BucketRoute::Create => {
            &&& page matches BucketPage::Create(Uploadable::NotUploaded(nb)) && nb.name.text()@
                == Seq::<char>::empty()
            &&& commands == Seq::<BucketCommand>::empty()
        },
    }
}

fn to_public_buckets(v: Vec<BucketData>) -> (r: Vec<PublicBucket>)
    ensures
        r@ == v@.map_values(|b: BucketData| PublicBucket(b)),
{
    let ghost orig = v@;
    let total = v.len();
    let mut rest = v;
    let mut out: Vec<PublicBucket> = Vec::new();
    let mut k: usize = 0;
    while rest.len() > 0
        invariant
            orig.len() == total,
            k <= total,
            rest@ == orig.skip(k as int),
            out@ == orig.take(k as int).map_values(|b: BucketData| PublicBucket(b)),
        decreases rest@.len(),
    {
        let b = rest.remove(0);
        out.push(PublicBucket(b));
        k = k + 1;
        assert(rest@ =~= orig.skip(k as int));
        assert(out@ =~= orig.take(k as int).map_values(|b: BucketData| PublicBucket(b)));
    }
    assert(orig.take(k as int) =~= orig);
    out
}

fn to_approved_buckets(v: Vec<BucketData>) -> (r: Vec<ApprovedBucket>)
    ensures
        r@ == v@.map_values(|b: BucketData| ApprovedBucket(b)),
{
    let ghost orig = v@;
    let total = v.len();
    let mut rest = v;
    let mut out: Vec<ApprovedBucket> = Vec::new();
    let mut k: usize = 0;
    while rest.len() > 0
        invariant
            orig.len() == total,
            k <= total,
            rest@ == orig.skip(k as int),
            out@ == orig.take(k as int).map_values(|b: BucketData| ApprovedBucket(b)),
        decreases rest@.len(),
    {
        let b = rest.remove(0);
        out.push(ApprovedBucket(b));
        k = k + 1;
        assert(rest@ =~= orig.skip(k as int));
        assert(out@ =~= orig.take(k as int).map_values(|b: BucketData| ApprovedBucket(b)));
    }
    assert(orig.take(k as int) =~= orig);
    out
}

fn open_page(route: BucketRoute) -> (r: (BucketPage, Vec<BucketCommand>))
    ensures
        opened_page(route, r.0, r.1@),
{
    let mut commands: Vec<BucketCommand> = Vec::new();
    let page = match route {
        BucketRoute::BucketList => {
            commands.push(BucketCommand::Fetch(BucketRequest::GetPublicBuckets));
            commands.push(BucketCommand::Fetch(BucketRequest::GetBucketsForUser));
            BucketPage::BucketList(BucketLists::default())
        },
        BucketRoute::Bucket { bucket_uuid } => {
            commands.push(BucketCommand::Fetch(BucketRequest::GetBucket { bucket_uuid }));
            BucketPage::Bucket(Loadable::Unloaded)
        },
        BucketRoute::Create => BucketPage::Create(Uploadable::NotUploaded(NewBucket::default())),
    };
    assert(commands@ =~= match route {
        BucketRoute::BucketList => seq![
            BucketCommand::Fetch(BucketRequest::GetPublicBuckets),
            BucketCommand::Fetch(BucketRequest::GetBucketsForUser),
        ],
        BucketRoute::Bucket { bucket_uuid } => seq![
            BucketCommand::Fetch(BucketRequest::GetBucket { bucket_uuid }),
        ],
        BucketRoute::Create => Seq::<BucketCommand>::empty(),
    });
    (page, commands)
}

impl BucketModel {
    /// The page for `route` when it is first shown, with the drop-down closed.
    pub fn create(route: BucketRoute) -> (r: (BucketModel, Vec<BucketCommand>))
        ensures
            opened_page(route, r.0.bucket_page, r.1@),
            r.0.drop_down_state == DropDownPaneVariant::Closed,
    {
        let (bucket_page, commands) = open_page(route);
        (BucketModel { bucket_page, drop_down_state: DropDownPaneVariant::Closed }, commands)
    }

    /// The route changed: the page is opened anew; the drop-down stays.
    pub fn change(&mut self, route: BucketRoute) -> (r: (bool, Vec<BucketCommand>))
        ensures
            opened_page(route, final(self).bucket_page, r.1@),
            final(self).drop_down_state == old(self).drop_down_state,
            r.0,
    {
        let (bucket_page, commands) = open_page(route);
        self.bucket_page = bucket_page;
        (true, commands)
    }

    /// How handling `msg` takes the page from `pre` to `post`, with `r`
    /// saying whether to render again and what to ask of the outside world.
    pub open spec fn updated(
        pre: BucketModel,
        msg: BucketModelMsg,
        post: BucketModel,
        r: (bool, Option<BucketCommand>),
    ) -> bool {
        match msg {
            BucketModelMsg::NavigateToBucket { bucket_uuid } => {
                &&& r.0
                &&& r.1 matches Some(BucketCommand::ChangeRoute(p)) && p@ == "bucket/"@
                    + bucket_uuid.text()
                &&& post == pre
            },
            BucketModelMsg::NavigateToCreateBucket => {
                &&& r.0
                &&& r.1 matches Some(BucketCommand::ChangeRoute(p)) && p@ == "bucket/create"@
                &&& post == pre
            },
            BucketModelMsg::HandleGetPublicBucketsResponse(response) => {
                &&& r.0
                &&& r.1 is None
                &&& post.drop_down_state == pre.drop_down_state
                &&& post.bucket_page matches BucketPage::BucketList(lists) && loaded_list(
                    response,
                    lists.public_buckets,
                    |b: BucketData| PublicBucket(b),
                ) && match pre.bucket_page {
                    BucketPage::BucketList(old_lists) => lists.approved_buckets
                        == old_lists.approved_buckets && lists.request_to_join_bucket_action
                        == old_lists.request_to_join_bucket_action,
                    _ => (lists.approved_buckets is Unloaded) && lists.request_to_join_bucket_action
                        == Uploadable::NotUploaded(()),
                }
            },
            BucketModelMsg::HandleGetApprovedBucketsResponse(response) => {
                &&& r.0
                &&& r.1 is None
                &&& post.drop_down_state == pre.drop_down_state
                &&& post.bucket_page matches BucketPage::BucketList(lists) && loaded_list(
                    response,
                    lists.approved_buckets,
                    |b: BucketData| ApprovedBucket(b),
                ) && match pre.bucket_page {
                    BucketPage::BucketList(old_lists) => lists.public_buckets
                        == old_lists.public_buckets && lists.request_to_join_bucket_action
                        == old_lists.request_to_join_bucket_action,
                    _ => (lists.public_buckets is Unloaded) && lists.request_to_join_bucket_action
                        == Uploadable::NotUploaded(()),
                }
            },
            BucketModelMsg::HandleGetBucketResponse(response) => {
                &&& r.0
                &&& r.1 is None
                &&& post.drop_down_state == pre.drop_down_state
                &&& post.bucket_page == BucketPage::Bucket(
                    match response {
                        FetchResponse::Success(b) => Loadable::Loaded(b),
                        FetchResponse::Error(_) => Loadable::Failed(None),
                        FetchResponse::Started => Loadable::Loading,
                    },
                )
            },
            BucketModelMsg::HandleJoinBucketResponse(_) => {
                &&& r.0
                &&& r.1 is None
                &&& post == pre
            },
            BucketModelMsg::CreateBucket => {
                &&& r.0
                &&& post.drop_down_state == pre.drop_down_state
                &&& match pre.bucket_page {
                    BucketPage::Create(u) => {
                        let name = u.inner().name.text();
                        if name@.len() > 0 {
                            &&& r.1 matches Some(
                                BucketCommand::Fetch(BucketRequest::CreateBucket(req)),
                            ) && req.bucket_name == name && req.is_public
                            &&& post.bucket_page == pre.bucket_page
                        } else {
                            &&& r.1 is None
                            &&& post.bucket_page matches BucketPage::Create(
                                Uploadable::Failed(nb, m),
                            ) && nb == u.inner() && m@ == empty_bucket_name_message()
                        }
                    },
                    _ => r.1 is None && post == pre,
                }
            },
            BucketModelMsg::UpdateBucketName(name) => {
                &&& r.1 is None
                &&& post.drop_down_state == pre.drop_down_state
                &&& match pre.bucket_page {
                    BucketPage::Create(u) => {
                        &&& r.0
                        &&& post.bucket_page == BucketPage::Create(
                            match u {
                                Uploadable::NotUploaded(_) => Uploadable::NotUploaded(
                                    NewBucket { name },
                                ),
                                Uploadable::Uploading(_) => Uploadable::Uploading(
                                    NewBucket { name },
                                ),
                                Uploadable::Failed(_, m) => Uploadable::Failed(
                                    NewBucket { name },
                                    m,
                                ),
                            },
                        )
                    },
                    _ => !r.0 && post.bucket_page == pre.bucket_page,
                }
            },
            BucketModelMsg::ChangeDropDownState(state) => {
                &&& r.0
                &&& r.1 is None
                &&& post.bucket_page == pre.bucket_page
                &&& post.drop_down_state == if pre.drop_down_state == state {
                    DropDownPaneVariant::Closed
                } else {
                    state
                }
            },
            BucketModelMsg::RequestToJoinBucket { bucket_uuid } => {
                &&& r.0
                &&& r.1 == Some(
                    BucketCommand::Fetch(BucketRequest::CreateJoinBucketRequest { bucket_uuid }),
                )
                &&& post == pre
            },
            BucketModelMsg::NoOp => {
                &&& r.0
                &&& r.1 is None
                &&& post == pre
            },
        }
    }

    /// Handles `msg`.
    pub fn update(&mut self, msg: BucketModelMsg) -> (r: (bool, Option<BucketCommand>))
        ensures
            Self::updated(*old(self), msg, *final(self), r),
    {
        match msg {
            BucketModelMsg::NavigateToBucket { bucket_uuid } => {
                let mut path = String::from_str("bucket/");
                let t = bucket_uuid.to_text();
                path.append(t.as_str());
                (true, Some(BucketCommand::ChangeRoute(path)))
            },
            BucketModelMsg::NavigateToCreateBucket => {
                (true, Some(BucketCommand::ChangeRoute(String::from_str("bucket/create"))))
            },
            BucketModelMsg::HandleGetPublicBucketsResponse(response) => {
                let public = match response {
                    FetchResponse::Success(v) => Loadable::Loaded(to_public_buckets(v)),
                    FetchResponse::Error(_) => Loadable::Failed(None),
                    FetchResponse::Started => Loadable::Loading,
                };
                if let BucketPage::BucketList(bucket_list) = &mut self.bucket_page {
                    bucket_list.public_buckets = public;
                } else {
                    let mut bucket_lists = BucketLists::default();
                    bucket_lists.public_buckets = public;
                    self.bucket_page = BucketPage::BucketList(bucket_lists);
                }
                (true, None)
            },
            BucketModelMsg::HandleGetApprovedBucketsResponse(response) => {
                let approved = match response {
                    FetchResponse::Success(v) => Loadable::Loaded(to_approved_buckets(v)),
                    FetchResponse::Error(_) => Loadable::Failed(None),
                    FetchResponse::Started => Loadable::Loading,
                };
                if let BucketPage::BucketList(bucket_list) = &mut self.bucket_page {
                    bucket_list.approved_buckets = approved;
                } else {
                    let mut bucket_lists = BucketLists::default();
                    bucket_lists.approved_buckets = approved;
                    self.bucket_page = BucketPage::BucketList(bucket_lists);
                }
                (true, None)
            },
            BucketModelMsg::HandleGetBucketResponse(response) => {
                self.bucket_page = BucketPage::Bucket(Loadable::from_fetch_response(response));
                (true, None)
            },
            BucketModelMsg::HandleJoinBucketResponse(_) => (true, None),
            BucketModelMsg::CreateBucket => {
                let new_bucket_option = if let BucketPage::Create(new_bucket) = &self.bucket_page {
                    Some(new_bucket.cloned_inner())
                } else {
                    None
                };
                match new_bucket_option {
                    Some(new_bucket) => {
                        match new_bucket.validate() {
                            Ok(new_bucket_request) => {
                                (
                                    true,
                                    Some(
                                        BucketCommand::Fetch(
                                            BucketRequest::CreateBucket(new_bucket_request),
                                        ),
                                    ),
                                )
                            },
                            Err(error) => {
                                if let BucketPage::Create(new_bucket) = &mut self.bucket_page {
                                    new_bucket.set_failed(error.as_str());
                                }
                                (true, None)
                            },
                        }
                    },
                    None => (true, None),
                }
            },
            BucketModelMsg::UpdateBucketName(bucket_name) => {
                if let BucketPage::Create(new_bucket) = &mut self.bucket_page {
                    new_bucket.as_mut().name = bucket_name;
                    (true, None)
                } else {
                    (false, None)
                }
            },
            BucketModelMsg::ChangeDropDownState(drop_down_state) => {
                if self.drop_down_state == drop_down_state {
                    self.drop_down_state = DropDownPaneVariant::Closed;
                } else {
                    self.drop_down_state = drop_down_state;
                }
                (true, None)
            },
            BucketModelMsg::RequestToJoinBucket { bucket_uuid } => {
                (
                    true,
                    Some(
                        BucketCommand::Fetch(
                            BucketRequest::CreateJoinBucketRequest { bucket_uuid },
                        ),
                    ),
                )
            },
            BucketModelMsg::NoOp => (true, None),
        }
    }
}

/// Whether a bucket is to be open to the public.
#[derive(Clone, Copy, Debug, PartialEq, Eq, Structural)]
pub enum Publicity {
    Public,
    Private,
}

/// What the pane that manages buckets is told.
#[derive(Debug)]
pub enum BucketManagementMsg {
    GetBucketUsersData,
    HandleGetBucketUsersDataResponse(FetchResponse<Vec<BucketUsersData>>),
    GrantUserAccessToBucket { user_uuid: UserUuid, bucket_uuid: BucketUuid },
    HandleGrantUserAccessResponse(FetchResponse<()>),
    DenyUserAccessToBucket { user_uuid: UserUuid, bucket_uuid: BucketUuid },
    HandleDenyUserAccessResponse(FetchResponse<()>),
    SetPublicOrPrivate { bucket_uuid: BucketUuid, publicity: Publicity },
    HandleSetPublicityResponse(FetchResponse<()>),
    NoOp,
}

/// The state of the pane where a bucket owner approves or rejects the users
/// who asked to join, and opens or locks the bucket.
#[derive(Debug)]
pub struct BucketManagement {
    pub bucket_users: Loadable<Vec<BucketUsersData>>,
    pub remove_user_action: Uploadable<()>,
    pub approve_user_action: Uploadable<()>,
    pub set_public_or_private_action: Uploadable<()>,
}

impl BucketManagement {
    /// The pane when it opens, and the request for the buckets it manages.
    pub fn create() -> (r: (BucketManagement, BucketRequest))
        ensures
            (r.0.bucket_users is Unloaded),
            r.0.remove_user_action == Uploadable::NotUploaded(()),
            r.0.approve_user_action == Uploadable::NotUploaded(()),
            r.0.set_public_or_private_action == Uploadable::NotUploaded(()),
            r.1 == BucketRequest::GetUnapprovedUsersForOwnedBuckets,
    {
        (
            BucketManagement {
                bucket_users: Loadable::Unloaded,
                remove_user_action: Uploadable::NotUploaded(()),
                approve_user_action: Uploadable::NotUploaded(()),
                set_public_or_private_action: Uploadable::NotUploaded(()),
            },
            BucketRequest::GetUnapprovedUsersForOwnedBuckets,
        )
    }

    /// The messages the pane can handle: an answer to an approval, a
    /// rejection or a change of publicity is handled only when it is a
    /// success, since the pane copies the answer with a `clone` that calls
    /// itself without end for the other answers.
    pub open spec fn handles(msg: BucketManagementMsg) -> bool {
        match msg {
            BucketManagementMsg::HandleGrantUserAccessResponse(r) => r is Success,
            BucketManagementMsg::HandleDenyUserAccessResponse(r) => r is Success,
            BucketManagementMsg::HandleSetPublicityResponse(r) => r is Success,
            _ => true,
        }
    }

    /// How handling `msg` takes the pane from `pre` to `post`, with `r`
    /// saying whether to render again and which request to send.
    pub open spec fn updated(
        pre: BucketManagement,
        msg: BucketManagementMsg,
        post: BucketManagement,
        r: (bool, Option<BucketRequest>),
    ) -> bool {
        match msg {
            BucketManagementMsg::GetBucketUsersData => {
                &&& r == (true, Some(BucketRequest::GetUnapprovedUsersForOwnedBuckets))
                &&& post == pre
            },
            BucketManagementMsg::HandleGetBucketUsersDataResponse(response) => {
                &&& r == (true, None::<BucketRequest>)
                &&& post == BucketManagement {
                    bucket_users: match response {
                        FetchResponse::Success(v) => Loadable::Loaded(v),
                        FetchResponse::Error(_) => Loadable::Failed(None),
                        FetchResponse::Started => Loadable::Loading,
                    },
                    ..pre
                }
            },
            BucketManagementMsg::GrantUserAccessToBucket { user_uuid, bucket_uuid } => {
                &&& r == (true, Some(BucketRequest::ApproveUserForBucket { bucket_uuid, user_uuid }))
                &&& post == pre
            },
            BucketManagementMsg::HandleGrantUserAccessResponse(_) => {
                &&& r == (true, Some(BucketRequest::GetUnapprovedUsersForOwnedBuckets))
                &&& post == BucketManagement { approve_user_action: Uploadable::NotUploaded(()), ..pre }
            },
            BucketManagementMsg::DenyUserAccessToBucket { user_uuid, bucket_uuid } => {
                &&& r == (true, Some(BucketRequest::RemoveUserFromBucket { bucket_uuid, user_uuid }))
                &&& post == pre
            },
            BucketManagementMsg::HandleDenyUserAccessResponse(_) => {
                &&& r == (true, Some(BucketRequest::GetUnapprovedUsersForOwnedBuckets))
                &&& post == BucketManagement { remove_user_action: Uploadable::NotUploaded(()), ..pre }
            },
            BucketManagementMsg::SetPublicOrPrivate { bucket_uuid, publicity } => {
                &&& r == (
                    true,
                    Some(
                        BucketRequest::SetBucketPublicStatus {
                            bucket_uuid,
                            is_public: publicity == Publicity::Public,
                        },
                    ),
                )
                &&& post == pre
            },
            BucketManagementMsg::HandleSetPublicityResponse(_) => {
                &&& r == (true, Some(BucketRequest::GetUnapprovedUsersForOwnedBuckets))
                &&& post == BucketManagement {
                    set_public_or_private_action: Uploadable::NotUploaded(()),
                    ..pre
                }
            },
            BucketManagementMsg::NoOp => {
                &&& r == (false, None::<BucketRequest>)
                &&& post == pre
            },
        }
    }

    /// Handles `msg`.
    pub fn update(&mut self, msg: BucketManagementMsg) -> (r: (bool, Option<BucketRequest>))
        requires
            Self::handles(msg),
        ensures
            Self::updated(*old(self), msg, *final(self), r),
    {
        match msg {
            BucketManagementMsg::GetBucketUsersData => {
                (true, Some(BucketRequest::GetUnapprovedUsersForOwnedBuckets))
            },
            BucketManagementMsg::HandleGetBucketUsersDataResponse(response) => {
                self.bucket_users = Loadable::from_fetch_response(response);
                (true, None)
            },
            BucketManagementMsg::GrantUserAccessToBucket { user_uuid, bucket_uuid } => {
                (true, Some(BucketRequest::ApproveUserForBucket { bucket_uuid, user_uuid }))
            },
            BucketManagementMsg::HandleGrantUserAccessResponse(response) => {
                self.approve_user_action.handle_fetch_response(response);
                (true, Some(BucketRequest::GetUnapprovedUsersForOwnedBuckets))
            },
            BucketManagementMsg::DenyUserAccessToBucket { user_uuid, bucket_uuid } => {
                (true, Some(BucketRequest::RemoveUserFromBucket { bucket_uuid, user_uuid }))
            },
            BucketManagementMsg::HandleDenyUserAccessResponse(response) => {
                self.remove_user_action.handle_fetch_response(response);
                (true, Some(BucketRequest::GetUnapprovedUsersForOwnedBuckets))
            },
            BucketManagementMsg::SetPublicOrPrivate { bucket_uuid, publicity } => {
                let is_public = match publicity {
                    Publicity::Public => true,
                    Publicity::Private => false,
                };
                (true, Some(BucketRequest::SetBucketPublicStatus { bucket_uuid, is_public }))
            },
            BucketManagementMsg::HandleSetPublicityResponse(response) => {
                self.set_public_or_private_action.handle_fetch_response(response);
                (true, Some(BucketRequest::GetUnapprovedUsersForOwnedBuckets))
            },
            BucketManagementMsg::NoOp => (false, None),
        }
    }
}

/// What the participants pane is told.
#[derive(Debug)]
pub enum BucketParticipantsMsg {
    GetBucketUserData { bucket_uuid: BucketUuid },
    HandleGetBucketUserDataResponse(FetchResponse<Vec<UserData>>),
    HandleIsUserOwnerResponse(FetchResponse<bool>),
    RemoveUserFromBucket { user_uuid: UserUuid },
    HandleRemoveUserResponse(FetchResponse<()>),
    NoOp,
}

/// The state of the pane listing a bucket's members; the owner may remove them.
#[derive(Debug)]
pub struct BucketParticipants {
    pub users: Loadable<Vec<UserData>>,
    pub is_user_bucket_owner: Loadable<bool>,
    pub bucket_uuid: Option<BucketUuid>,
}

/// The requests for a bucket's members and for whether the user owns it.
pub open spec fn participant_requests(bucket_uuid: BucketUuid) -> Seq<BucketRequest> {
    seq![
        BucketRequest::GetUsersInBucket { bucket_uuid },
        BucketRequest::GetIsUserOwnerOfBucket { bucket_uuid },
    ]
}

fn participant_requests_for(bucket_uuid: BucketUuid) -> (r: Vec<BucketRequest>)
    ensures
        r@ == participant_requests(bucket_uuid),
{
    let mut v = Vec::new();
    v.push(BucketRequest::GetUsersInBucket { bucket_uuid });
    v.push(BucketRequest::GetIsUserOwnerOfBucket { bucket_uuid });
    assert(v@ =~= participant_requests(bucket_uuid));
    v
}

impl BucketParticipants {
    /// The pane when it opens for `bucket_data`: for a loaded bucket it asks
    /// for the members and for whether the user owns the bucket.
    pub fn create(bucket_data: &Loadable<BucketData>) -> (r: (
        BucketParticipants,
        Vec<BucketRequest>,
    ))
        ensures
            (r.0.users is Unloaded),
            (r.0.is_user_bucket_owner is Unloaded),
            match *bucket_data {
                Loadable::Loaded(b) => r.0.bucket_uuid == Some(b.uuid) && r.1@
                    == participant_requests(b.uuid),
                _ => r.0.bucket_uuid is None && r.1@.len() == 0,
            },
    {
        let mut participants = BucketParticipants {
            users: Loadable::Unloaded,
            is_user_bucket_owner: Loadable::Unloaded,
            bucket_uuid: None,
        };
        if let Loadable::Loaded(b) = bucket_data {
            participants.bucket_uuid = Some(b.uuid);
            (participants, participant_requests_for(b.uuid))
        } else {
            (participants, Vec::new())
        }
    }

    /// A new bucket is shown; only a loaded one is asked about.
    pub fn change(&mut self, bucket_data: &Loadable<BucketData>) -> (r: (bool, Vec<BucketRequest>))
        ensures
            final(self).users == old(self).users,
            final(self).is_user_bucket_owner == old(self).is_user_bucket_owner,
            match *bucket_data {
                Loadable::Loaded(b) => r.0 && final(self).bucket_uuid == Some(b.uuid) && r.1@
                    == participant_requests(b.uuid),
                _ => !r.0 && final(self).bucket_uuid == old(self).bucket_uuid && r.1@.len() == 0,
            },
    {
        if let Loadable::Loaded(b) = bucket_data {
            self.bucket_uuid = Some(b.uuid);
            (true, participant_requests_for(b.uuid))
        } else {
            (false, Vec::new())
        }
    }

    /// How handling `msg` takes the pane from `pre` to `post`, with `r`
    /// saying whether to render again and which request to send.
    pub open spec fn updated(
        pre: BucketParticipants,
        msg: BucketParticipantsMsg,
        post: BucketParticipants,
        r: (bool, Option<BucketRequest>),
    ) -> bool {
        match msg {
            BucketParticipantsMsg::GetBucketUserData { bucket_uuid } => {
                &&& r == (true, Some(BucketRequest::GetUsersInBucket { bucket_uuid }))
                &&& post == pre
            },
            BucketParticipantsMsg::HandleGetBucketUserDataResponse(response) => {
                &&& r == (true, None::<BucketRequest>)
                &&& post == BucketParticipants {
                    users: match response {
                        FetchResponse::Success(v) => Loadable::Loaded(v),
                        FetchResponse::Error(_) => Loadable::Failed(None),
                        FetchResponse::Started => Loadable::Loading,
                    },
                    ..pre
                }
            },
            BucketParticipantsMsg::HandleIsUserOwnerResponse(response) => {
                &&& r == (true, None::<BucketRequest>)
                &&& post == BucketParticipants {
                    is_user_bucket_owner: match response {
                        FetchResponse::Success(b) => Loadable::Loaded(b),
                        FetchResponse::Error(_) => Loadable::Failed(None),
                        FetchResponse::Started => Loadable::Loading,
                    },
                    ..pre
                }
            },
            BucketParticipantsMsg::RemoveUserFromBucket { user_uuid } => {
                &&& post == pre
                &&& r == (true, match pre.bucket_uuid {
                    Some(bucket_uuid) => Some(
                        BucketRequest::RemoveUserFromBucket { bucket_uuid, user_uuid },
                    ),
                    None => None,
                })
            },
            BucketParticipantsMsg::HandleRemoveUserResponse(response) => {
                &&& post == pre
                &&& r == match (response, pre.bucket_uuid) {
                    (FetchResponse::Success(_), Some(bucket_uuid)) => (
                        true,
                        Some(BucketRequest::GetUsersInBucket { bucket_uuid }),
                    ),
                    _ => (false, None),
                }
            },
            BucketParticipantsMsg::NoOp => {
                &&& r == (false, None::<BucketRequest>)
                &&& post == pre
            },
        }
    }

    /// Handles `msg`.
    pub fn update(&mut self, msg: BucketParticipantsMsg) -> (r: (bool, Option<BucketRequest>))
        ensures
            Self::updated(*old(self), msg, *final(self), r),
    {
        match msg {
            BucketParticipantsMsg::GetBucketUserData { bucket_uuid } => {
                (true, Some(BucketRequest::GetUsersInBucket { bucket_uuid }))
            },
            BucketParticipantsMsg::HandleGetBucketUserDataResponse(response) => {
                self.users = Loadable::from_fetch_response(response);
                (true, None)
            },
            BucketParticipantsMsg::HandleIsUserOwnerResponse(response) => {
                self.is_user_bucket_owner = Loadable::from_fetch_response(response);
                (true, None)
            },
            BucketParticipantsMsg::RemoveUserFromBucket { user_uuid } => {
                match self.bucket_uuid {
                    Some(bucket_uuid) => (
                        true,
                        Some(BucketRequest::RemoveUserFromBucket { bucket_uuid, user_uuid }),
                    ),
                    None => (true, None),
                }
            },
            BucketParticipantsMsg::HandleRemoveUserResponse(response) => {
                if let FetchResponse::Success(_) = response {
                    if let Some(bucket_uuid) = self.bucket_uuid {
                        return (true, Some(BucketRequest::GetUsersInBucket { bucket_uuid }));
                    }
                }
                (false, None)
            },
            BucketParticipantsMsg::NoOp => (false, None),
        }
    }
}

/// The pane asks to remove a user from a bucket exactly when the owner
/// denies that user access to that bucket, and asks to approve a user
/// exactly when the owner grants it: a denial is the removal of that very
/// user from that very bucket, sent as a `DELETE` of
/// `buckets/<bucket>?user_id=<user>`, and never an approval; a grant is never
/// a removal.
pub proof fn lemma_deny_removes_and_grant_approves(
    pre: BucketManagement,
    msg: BucketManagementMsg,
    post: BucketManagement,
    r: (bool, Option<BucketRequest>),
)
    requires
        BucketManagement::updated(pre, msg, post, r),
    ensures
        msg matches BucketManagementMsg::DenyUserAccessToBucket { user_uuid, bucket_uuid } ==> (
        r.1 matches Some(q) && q == BucketRequest::RemoveUserFromBucket { bucket_uuid, user_uuid }
            && q.spec_path() == "buckets/"@ + uuid_text(bucket_uuid.value) + "?user_id="@
            + uuid_text(user_uuid.value)),
        msg matches BucketManagementMsg::GrantUserAccessToBucket { user_uuid, bucket_uuid } ==> (
        r.1 matches Some(q) && q == BucketRequest::ApproveUserForBucket { bucket_uuid, user_uuid }
            && q.spec_path() == "buckets/"@ + uuid_text(bucket_uuid.value) + "/approval?user_id="@
            + uuid_text(user_uuid.value)),
        r.1 matches Some(BucketRequest::RemoveUserFromBucket { bucket_uuid, user_uuid }) ==> (
        msg matches BucketManagementMsg::DenyUserAccessToBucket { user_uuid: u, bucket_uuid: b }
            && u == user_uuid && b == bucket_uuid),
        r.1 matches Some(BucketRequest::ApproveUserForBucket { bucket_uuid, user_uuid }) ==> (
        msg matches BucketManagementMsg::GrantUserAccessToBucket { user_uuid: u, bucket_uuid: b }
            && u == user_uuid && b == bucket_uuid),
{
    match msg {
        BucketManagementMsg::DenyUserAccessToBucket { user_uuid, bucket_uuid } => {
            lemma_membership_paths(bucket_uuid, user_uuid);
        },
        BucketManagementMsg::GrantUserAccessToBucket { user_uuid, bucket_uuid } => {
            lemma_membership_paths(bucket_uuid, user_uuid);
        },
        _ => {},
    }
}

/// The owner removing a member asks to remove exactly that user from the
/// bucket the pane shows, and the pane asks for a removal for nothing else;
/// with no bucket shown nothing is sent.
pub proof fn lemma_participant_removal(
    pre: BucketParticipants,
    msg: BucketParticipantsMsg,
    post: BucketParticipants,
    r: (bool, Option<BucketRequest>),
)
    requires
        BucketParticipants::updated(pre, msg, post, r),
    ensures
        msg matches BucketParticipantsMsg::RemoveUserFromBucket { user_uuid } ==> match pre.bucket_uuid {
            Some(b) => r.1 matches Some(q) && q == BucketRequest::RemoveUserFromBucket {
                bucket_uuid: b,
                user_uuid,
            } && q.spec_path() == "buckets/"@ + uuid_text(b.value) + "?user_id="@ + uuid_text(
                user_uuid.value,
            ),
            None => r.1 is None,
        },
        r.1 matches Some(BucketRequest::RemoveUserFromBucket { bucket_uuid, user_uuid }) ==> (
        pre.bucket_uuid == Some(bucket_uuid) && (msg matches BucketParticipantsMsg::RemoveUserFromBucket {
            user_uuid: u,
        } && u == user_uuid)),
{
    match (msg, pre.bucket_uuid) {
        (BucketParticipantsMsg::RemoveUserFromBucket { user_uuid }, Some(b)) => {
            lemma_membership_paths(b, user_uuid);
        },
        _ => {},
    }
}

} // verus!
