use vstd::prelude::*;

use crate::scripting::record::{RecordValue, ValueModel};
use crate::scripting::record_serializer::RecordSerializer;
use crate::scripting::script::ScriptArgs;

verus! {

/// The user accounts to create.
#[derive(Debug, Clone)]
pub struct UsersConfig {
    pub users: Vec<User>,
}

/// One user account.
#[derive(Debug, Clone)]
pub struct User {
    pub name: String,
    pub password: String,
    pub sudoer: bool,
    pub shell: String,
}

impl ScriptArgs for User {
    /// A record with one field per struct field, in declaration order.
    open spec fn model(&self) -> ValueModel {
        ValueModel::Record(
            seq![
                (ValueModel::Str("name"@), self.name.model()),
                (ValueModel::Str("password"@), self.password.model()),
                (ValueModel::Str("sudoer"@), self.sudoer.model()),
                (ValueModel::Str("shell"@), self.shell.model()),
            ],
        )
    }

    fn to_value(&self) -> (r: RecordValue)
        ensures
            r@ == self.model(),
    {
        let mut m = RecordSerializer::map_serializer(Some(4));
        m.serialize_field("name", self.name.to_value());
        m.serialize_field("password", self.password.to_value());
        m.serialize_field("sudoer", self.sudoer.to_value());
        m.serialize_field("shell", self.shell.to_value());
        proof {
            assert(m@ =~= seq![
                (ValueModel::Str("name"@), self.name.model()),
                (ValueModel::Str("password"@), self.password.model()),
                (ValueModel::Str("sudoer"@), self.sudoer.model()),
                (ValueModel::Str("shell"@), self.shell.model()),
            ]);
        }
        m.end()
    }
}

impl ScriptArgs for UsersConfig {
    /// A record with one field per struct field.
    open spec fn model(&self) -> ValueModel {
        ValueModel::Record(seq![(ValueModel::Str("users"@), self.users.model())])
    }

    fn to_value(&self) -> (r: RecordValue)
        ensures
            r@ == self.model(),
    {
        let mut m = RecordSerializer::map_serializer(Some(1));
        m.serialize_field("users", self.users.to_value());
        proof {
            assert(m@ =~= seq![(ValueModel::Str("users"@), self.users.model())]);
        }
        m.end()
    }
}

} // verus!
