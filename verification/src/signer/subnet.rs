//! Subnet IDs and the chain IDs derived from them.

use std::hash::Hasher;
use vstd::prelude::*;
use vstd::string::StringExecFns;
use vstd::string::StringSliceAdditionalSpecFns;
use vstd::utf8::encode_utf8;

use crate::address::{Address, AddressView};
use crate::error::Error;
use crate::provider::util::{address_of_text, parse_address, parse_number, parsed_height_number};
use crate::text::{decimal_digits, push_decimal};

verus! {

/// Chain IDs are smaller than this.
pub const MAX_CHAIN_ID: u64 = 4503599627370476;

/// The state that an FNV-1a hash starts from.
pub const FNV_OFFSET_BASIS: u64 = 0xcbf29ce484222325;

/// The factor of an FNV-1a hash.
pub const FNV_PRIME: u64 = 0x100000001b3;

/// The 64-bit FNV-1a hash of a byte string.
pub open spec fn fnv1a(bytes: Seq<u8>) -> u64
    decreases bytes.len(),
{
    if bytes.len() == 0 {
        FNV_OFFSET_BASIS
    } else {
        (((fnv1a(bytes.drop_last()) ^ (bytes.last() as u64)) * FNV_PRIME)
            % 0x1_0000_0000_0000_0000) as u64
    }
}

/// `fnv::FnvHasher`: `write` on a hasher made by `default`, followed by
/// `finish`, gives the 64-bit FNV-1a hash of the bytes.
#[verifier::external_body]
fn fnv_hash(bytes: &[u8]) -> (hash: u64)
    ensures
        hash == fnv1a(bytes@),
{
    let mut hasher = fnv::FnvHasher::default();
    hasher.write(bytes);
    hasher.finish()
}

/// The chain ID that a byte string hashes to.
pub open spec fn hashed_chain_id(bytes: Seq<u8>) -> u64 {
    fnv1a(bytes) % MAX_CHAIN_ID
}

/// Hashes a byte string to a chain ID.
pub fn hash(bytes: &[u8]) -> (id: u64)
    ensures
        id == hashed_chain_id(bytes@),
        id < MAX_CHAIN_ID,
{
    fnv_hash(bytes) % MAX_CHAIN_ID
}

/// A child on the path of a subnet: an address, and the text that wrote it.
#[derive(Clone, Debug, PartialEq, Eq)]
pub struct SubnetChild {
    pub address: Address,
    pub text: String,
}

/// What a child holds.
pub struct SubnetChildView {
    pub address: AddressView,
    pub text: Seq<char>,
}

impl View for SubnetChild {
    type V = SubnetChildView;

    open spec fn view(&self) -> SubnetChildView {
        SubnetChildView { address: self.address@, text: self.text@ }
    }
}

/// Subnet ID that understands eth-addresses and also holds names that are
/// no path from a root, which is convenient for networks without a real
/// parent.
#[derive(Clone, Debug, PartialEq, Eq)]
pub struct SubnetID {
    /// A name that is no path, or empty.
    faux: String,
    /// The root of the path.
    root: u64,
    /// The children of the path, from the root down.
    children: Vec<SubnetChild>,
}

/// What a subnet ID holds.
pub struct SubnetIDView {
    pub faux: Seq<char>,
    pub root: u64,
    pub children: Seq<SubnetChildView>,
}

impl View for SubnetID {
    type V = SubnetIDView;

    closed spec fn view(&self) -> SubnetIDView {
        SubnetIDView {
            faux: self.faux@,
            root: self.root,
            children: Seq::new(self.children@.len(), |i: int| self.children@[i]@),
        }
    }
}

/// Index of the first `/` of a text, or its length where there is none.
pub open spec fn first_slash(text: Seq<char>) -> int
    decreases text.len(),
{
    if text.len() == 0 || text[0] == '/' {
        0
    } else {
        1 + first_slash(text.skip(1))
    }
}

/// The children that a text of addresses, parted by `/`, writes; nothing
/// where one of them is no address.
pub open spec fn children_of_text(text: Seq<char>) -> Option<Seq<SubnetChildView>>
    decreases text.len(),
{
    let end = first_slash(text);
    if end < 0 || end > text.len() {
        None
    } else {
        match address_of_text(text.take(end)) {
            Some(address) => {
                let child = SubnetChildView { address, text: text.take(end) };
                if end == text.len() {
                    Some(seq![child])
                } else {
                    match children_of_text(text.skip(end + 1)) {
                        Some(rest) => Some(seq![child] + rest),
                        None => None,
                    }
                }
            },
            None => None,
        }
    }
}

/// The subnet ID that a text writes. A text that does not begin with `/r`
/// is a name. Any other text is a path: the root ID in decimal after `/r`,
/// followed by the addresses of the children, each after a `/`.
pub open spec fn subnet_of_text(text: Seq<char>) -> Option<SubnetIDView> {
    if !(text.len() >= 2 && text[0] == '/' && text[1] == 'r') {
        Some(SubnetIDView { faux: text, root: 0, children: Seq::empty() })
    } else {
        let path = text.skip(2);
        let end = first_slash(path);
        match parsed_height_number(encode_utf8(path.take(end))) {
            Some(root) => if end == path.len() {
                Some(SubnetIDView { faux: Seq::empty(), root, children: Seq::empty() })
            } else {
                match children_of_text(path.skip(end + 1)) {
                    Some(children) => Some(SubnetIDView { faux: Seq::empty(), root, children }),
                    None => None,
                }
            },
            None => None,
        }
    }
}

/// The text of a path: `/r`, the root ID, and each child after a `/`.
pub open spec fn path_text(root: u64, children: Seq<SubnetChildView>) -> Seq<char>
    decreases children.len(),
{
    if children.len() == 0 {
        "/r"@ + decimal_digits(root as nat)
    } else {
        path_text(root, children.drop_last()) + "/"@ + children.last().text
    }
}

/// The text of a subnet ID: its name, or else its path.
pub open spec fn subnet_text(id: SubnetIDView) -> Seq<char> {
    if id.faux.len() == 0 {
        path_text(id.root, id.children)
    } else {
        id.faux
    }
}

/// The chain ID of a subnet. A root with a name hashes the name; a root
/// without one has its root ID; a child hashes the text of its path.
pub open spec fn chain_id_of(id: SubnetIDView) -> u64 {
    if id.children.len() == 0 {
        if id.faux.len() == 0 {
            id.root
        } else {
            hashed_chain_id(encode_utf8(id.faux))
        }
    } else {
        hashed_chain_id(encode_utf8(path_text(id.root, id.children)))
    }
}

proof fn lemma_first_slash(text: Seq<char>, end: int)
    requires
        0 <= end <= text.len(),
        forall|k: int| 0 <= k < end ==> text[k] != '/',
        end == text.len() || text[end] == '/',
    ensures
        first_slash(text) == end,
    decreases text.len(),
{
    if end > 0 {
        let rest = text.skip(1);
        assert forall|k: int| 0 <= k < end - 1 implies rest[k] != '/' by {
            assert(rest[k] == text[k + 1]);
        }
        lemma_first_slash(rest, end - 1);
    }
}

/// The end of the segment that begins at `from`: the index of the next `/`
/// or the length of the text.
fn segment_end(text: &str, from: usize, len: usize) -> (end: usize)
    requires
        from <= len,
        len == text@.len(),
    ensures
        from <= end <= len,
        end - from == first_slash(text@.skip(from as int)),
{
    let mut end: usize = from;
    while end < len && text.get_char(end) != '/'
        invariant
            from <= end <= len,
            len == text@.len(),
            forall|k: int| from <= k < end ==> text@[k] != '/',
        decreases len - end,
    {
        end += 1;
    }
    proof {
        lemma_first_slash(text@.skip(from as int), end - from);
    }
    end
}

impl SubnetID {
    /// A subnet ID that is a path.
    pub fn new(root: u64, children: Vec<SubnetChild>) -> (id: SubnetID)
        ensures
            id@ == (SubnetIDView {
                faux: Seq::empty(),
                root,
                children: Seq::new(children@.len(), |i: int| children@[i]@),
            }),
    {
        SubnetID { faux: String::new(), root, children }
    }

    /// Reads a subnet ID from its text.
    pub fn from_str(id: &str) -> (subnet: Result<SubnetID, Error>)
        ensures
            match subnet_of_text(id@) {
                Some(view) => subnet matches Ok(s) && s@ == view,
                None => subnet matches Err(Error::InvalidSubnetId(text)) && text@ == id@,
            },
    {
        let len = id.unicode_len();
        if !(len >= 2 && id.get_char(0) == '/' && id.get_char(1) == 'r') {
            let subnet = SubnetID { faux: String::from_str(id), root: 0, children: Vec::new() };
            assert(subnet@.children =~= Seq::empty());
            return Ok(subnet);
        }
        let ghost path = id@.skip(2);
        let root_end = segment_end(id, 2, len);
        let root_text = id.substring_char(2, root_end);
        assert(root_text@ == path.take(root_end - 2));
        let root = match parse_number(root_text.as_bytes()) {
            Some(root) => root,
            None => {
                return Err(Error::InvalidSubnetId(String::from_str(id)));
            },
        };
        let mut children: Vec<SubnetChild> = Vec::new();
        if root_end == len {
            let subnet = SubnetID { faux: String::new(), root, children };
            assert(subnet@.children =~= Seq::empty());
            return Ok(subnet);
        }
        let ghost all = children_of_text(path.skip(root_end - 2 + 1));
        assert(path.skip(root_end - 2 + 1) == id@.skip(root_end + 1));
        let mut from: usize = root_end + 1;
        assert(Seq::new(children@.len(), |i: int| children@[i]@) =~= Seq::empty());
        assert(subnet_of_text(id@) == match all {
            Some(c) => Some(SubnetIDView { faux: Seq::empty(), root, children: c }),
            None => None,
        });
        loop
            invariant
                from <= len,
                len == id@.len(),
                subnet_of_text(id@) == match all {
                    Some(c) => Some(SubnetIDView { faux: Seq::empty(), root, children: c }),
                    None => None,
                },
                all == match children_of_text(id@.skip(from as int)) {
                    Some(rest) => Some(Seq::new(children@.len(), |i: int| children@[i]@) + rest),
                    None => None,
                },
            decreases len - from,
        {
            let ghost rest = id@.skip(from as int);
            let ghost so_far = Seq::new(children@.len(), |i: int| children@[i]@);
            let end = segment_end(id, from, len);
            let text = id.substring_char(from, end);
            assert(text@ == rest.take(end - from));
            let address = match parse_address(text) {
                Ok(address) => address,
                Err(_) => {
                    return Err(Error::InvalidSubnetId(String::from_str(id)));
                },
            };
            let ghost child = SubnetChildView { address: address@, text: text@ };
            children.push(SubnetChild { address, text: String::from_str(text) });
            assert(Seq::new(children@.len(), |i: int| children@[i]@) =~= so_far + seq![child]);
            if end == len {
                let subnet = SubnetID { faux: String::new(), root, children };
                assert(all == Some(so_far + seq![child]));
                return Ok(subnet);
            }
            assert(rest.skip(end - from + 1) == id@.skip(end + 1));
            proof {
                match children_of_text(id@.skip(end + 1)) {
                    Some(tail) => {
                        assert(so_far + (seq![child] + tail) =~= (so_far + seq![child]) + tail);
                    },
                    None => {},
                }
            }
            from = end + 1;
        }
    }

    /// A copy of the subnet ID.
    pub fn copy(&self) -> (id: SubnetID)
        ensures
            id@ == self@,
    {
        let mut children: Vec<SubnetChild> = Vec::new();
        let mut i: usize = 0;
        while i < self.children.len()
            invariant
                i <= self.children@.len(),
                children@.len() == i,
                forall|k: int| 0 <= k < i ==> (#[trigger] children@[k])@ == self.children@[k]@,
            decreases self.children.len() - i,
        {
            let child = &self.children[i];
            children.push(SubnetChild { address: child.address.copy(), text: child.text.clone() });
            i += 1;
        }
        let id = SubnetID { faux: self.faux.clone(), root: self.root, children };
        assert(id@.children =~= self@.children);
        id
    }

    /// The children of the path, from the root down.
    pub fn children(&self) -> (children: Vec<SubnetChild>)
        ensures
            Seq::new(children@.len(), |i: int| children@[i]@) == self@.children,
    {
        let SubnetID { faux, root, children } = self.copy();
        assert(Seq::new(children@.len(), |i: int| children@[i]@) =~= self@.children);
        children
    }

    /// Whether the subnet has no parent.
    pub fn is_root(&self) -> (root: bool)
        ensures
            root == (self@.children.len() == 0),
    {
        self.children.len() == 0
    }

    /// The ID of the root of the path.
    pub fn root_id(&self) -> (root: u64)
        ensures
            root == self@.root,
    {
        self.root
    }

    /// Returns the parent subnet ID if it exists: the path without its last
    /// child.
    pub fn parent(&self) -> (parent: Result<SubnetID, Error>)
        ensures
            self@.children.len() == 0 ==> parent == Err::<SubnetID, Error>(Error::SubnetHasNoParent),
            self@.children.len() > 0 ==> (parent matches Ok(p) && p@ == (SubnetIDView {
                faux: Seq::empty(),
                root: self@.root,
                children: self@.children.drop_last(),
            })),
    {
        if self.children.len() == 0 {
            return Err(Error::SubnetHasNoParent);
        }
        let mut children: Vec<SubnetChild> = Vec::new();
        let mut i: usize = 0;
        while i + 1 < self.children.len()
            invariant
                i + 1 <= self.children@.len(),
                children@.len() == i,
                forall|k: int| 0 <= k < i ==> (#[trigger] children@[k])@ == self.children@[k]@,
            decreases self.children.len() - i,
        {
            let child = &self.children[i];
            children.push(SubnetChild { address: child.address.copy(), text: child.text.clone() });
            i += 1;
        }
        let parent = SubnetID { faux: String::new(), root: self.root, children };
        assert(parent@.children =~= self@.children.drop_last());
        Ok(parent)
    }

    /// The text of the subnet ID.
    pub fn to_string(&self) -> (text: String)
        ensures
            text@ == subnet_text(self@),
    {
        if self.faux.as_str().unicode_len() != 0 {
            return self.faux.clone();
        }
        self.path_string()
    }

    /// The text of the path, whatever the name.
    fn path_string(&self) -> (text: String)
        ensures
            text@ == path_text(self@.root, self@.children),
    {
        let mut text = String::from_str("/r");
        push_decimal(&mut text, self.root);
        let mut i: usize = 0;
        while i < self.children.len()
            invariant
                i <= self.children@.len(),
                text@ == path_text(self.root, self@.children.take(i as int)),
            decreases self.children.len() - i,
        {
            let ghost upto = self@.children.take(i + 1);
            assert(upto.drop_last() == self@.children.take(i as int));
            assert(upto.last() == self.children@[i as int]@);
            text.append("/");
            text.append(self.children[i].text.as_str());
            i += 1;
        }
        assert(self@.children.take(i as int) == self@.children);
        text
    }

    /// Returns the chain ID representation.
    pub fn chain_id(&self) -> (id: u64)
        ensures
            id == chain_id_of(self@),
    {
        if self.is_root() {
            return if self.faux.as_str().unicode_len() == 0 {
                self.root
            } else {
                hash(self.faux.as_str().as_bytes())
            };
        }
        let text = self.path_string();
        hash(text.as_str().as_bytes())
    }
}

} // verus!
