//! The listener by which a test waits for outside input.

use crate::code_gen::flutter::{GenFlutter, GeneratedFile};
use crate::text::{replace_text, replaced};
use crate::utils::dbus::{DbusUtils, DBUS_INTERFACE, DBUS_METHOD_CONTINUE, DBUS_PATH};
use crate::utils::dir::{joined, DirUtils};
use vstd::prelude::*;
use vstd::string::*;

verus! {

/// The text of `dbus.dart`, with the names of the bus still to be put in.
pub const DBUS_DART: &'static str = "// GENERATED FILE - DO NOT EDIT\n\
    import 'dart:async';\n\
    import 'dart:io';\n\
    \n\
    import 'package:dbus/dbus.dart';\n\
    import 'package:flutter_test/flutter_test.dart';\n\
    \n\
    class E2EDBusObject extends DBusObject {\n\
    \x20 E2EDBusObject() : super(DBusObjectPath(PATH));\n\
    \n\
    \x20 static const String PATH = '{DBUS_PATH}';\n\
    \x20 static const String INTERFACE = '{DBUS_INTERFACE}';\n\
    \n\
    \x20 static const String METHOD_CONTINUE = '{DBUS_METHOD_CONTINUE}';\n\
    \n\
    \x20 Completer<String> _completer = Completer();\n\
    \n\
    \x20 Future<String> waitForContinue() {\n\
    \x20   _completer = Completer<String>();\n\
    \x20   return _completer.future;\n\
    \x20 }\n\
    \n\
    \x20 DBusMethodResponse continueTest(DBusMethodCall methodCall) {\n\
    \x20   if (methodCall.signature != DBusSignature('s')) {\n\
    \x20     return DBusMethodErrorResponse.invalidArgs();\n\
    \x20   }\n\
    \n\
    \x20   final input = methodCall.values[0].asString();\n\
    \x20   if (!_completer.isCompleted) _completer.complete(input);\n\
    \n\
    \x20   return DBusMethodSuccessResponse();\n\
    \x20 }\n\
    \n\
    \x20 @override\n\
    \x20 Future<DBusMethodResponse> handleMethodCall(DBusMethodCall methodCall) async {\n\
    \x20   if (methodCall.interface == INTERFACE) {\n\
    \x20     if (methodCall.name == METHOD_CONTINUE) {\n\
    \x20       return continueTest(methodCall);\n\
    \x20     } else {\n\
    \x20       return DBusMethodErrorResponse.unknownMethod();\n\
    \x20     }\n\
    \x20   } else {\n\
    \x20     return DBusMethodErrorResponse.unknownInterface();\n\
    \x20   }\n\
    \x20 }\n\
    \n\
    \x20 @override\n\
    \x20 List<DBusIntrospectInterface> introspect() {\n\
    \x20   return [\n\
    \x20     DBusIntrospectInterface(INTERFACE, methods: [\n\
    \x20       DBusIntrospectMethod(METHOD_CONTINUE),\n\
    \x20     ]),\n\
    \x20   ];\n\
    \x20 }\n\
    }\n\
    \n\
    extension WidgetTesterExtensions on WidgetTester {\n\
    \x20 Future<String> waitForInputViaDBus(String name) async {\n\
    \x20   stdout.writeln('Starting DBus listener for input \"$name\"...');\n\
    \n\
    \x20   final bus = DBusClient.session();\n\
    \n\
    \x20   await bus.requestName(E2EDBusObject.INTERFACE);\n\
    \n\
    \x20   final obj = E2EDBusObject();\n\
    \x20   await bus.registerObject(obj);\n\
    \n\
    \x20   stdout\n\
    \x20     ..writeln('Waiting for DBus method call ${E2EDBusObject.INTERFACE}.${E2EDBusObject.METHOD_CONTINUE}(...) ...')\n\
    \x20     ..writeln(\n\
    \x20       'Example: busctl --user call ${E2EDBusObject.INTERFACE} ${E2EDBusObject.PATH} ${E2EDBusObject.INTERFACE} ${E2EDBusObject.METHOD_CONTINUE} s \"your input here\"',\n\
    \x20     );\n\
    \n\
    \x20   final message = await obj.waitForContinue();\n\
    \n\
    \x20   stdout.writeln('Received ${E2EDBusObject.METHOD_CONTINUE}(\"$message\")');\n\
    \x20   await bus.close();\n\
    \x20   return message;\n\
    \x20 }\n\
    }\n\
    ";

/// The text of `dbus.dart`: the template with the names of the bus put
/// in.
pub open spec fn dbus_code() -> Seq<char> {
    replaced(
        replaced(
            replaced(DBUS_DART@, "{DBUS_PATH}"@, DBUS_PATH@),
            "{DBUS_INTERFACE}"@,
            DBUS_INTERFACE@,
        ),
        "{DBUS_METHOD_CONTINUE}"@,
        DBUS_METHOD_CONTINUE@,
    )
}

impl GenFlutter {
    /// The file with the listener by which a test waits for outside
    /// input.
    pub fn generate_dbus(&self) -> (file: GeneratedFile)
        ensures
            file.path@ == joined(self.out_dir@, "dbus.dart"@),
            file.content@ == dbus_code(),
    {
        let a = replace_text(DBUS_DART, "{DBUS_PATH}", DbusUtils::get_dbus_path());
        let b = replace_text(a.as_str(), "{DBUS_INTERFACE}", DbusUtils::get_dbus_interface());
        let c = replace_text(
            b.as_str(),
            "{DBUS_METHOD_CONTINUE}",
            DbusUtils::get_dbus_method_continue(),
        );
        GeneratedFile { path: DirUtils::join(self.out_dir.as_str(), "dbus.dart"), content: c }
    }
}

} // verus!
